//! Provider profiles for a coding agent.

pub mod agent_input;
pub mod api_keys;
pub mod clock;
pub mod conversation;
pub mod direct_auth;
pub mod direct_error;
pub mod direct_provider;
pub mod direct_request;
pub mod direct_run;
pub mod direct_stream;
pub mod direct_telemetry;
pub mod endpoint;
pub mod fingerprint;
pub mod fresh_id;
pub mod http_message;
pub mod http_status;
pub mod json;
pub mod profile;
pub mod provider_import;
pub mod provider_registry;
pub mod provider_validator;
pub mod registry_laws;
pub mod run_laws;
pub mod serde_values;
pub mod string_map;
pub mod text;
pub mod tools;
