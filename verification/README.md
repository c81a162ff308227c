# ai_providers

Bring-your-own providers for a coding agent: profiles for the provider that Warp
hosts, for OpenAI and Anthropic, and for endpoints that are compatible with
either; how one is picked for a request; how it is checked; and how the agent
talks to it without Warp in between.

`src/` is a library in Verus. Every function has a contract, and what holds of
several functions together is stated and proved in proof functions whose names
start with `law_`.

| Part | Modules |
| --- | --- |
| Profiles and the registry | `profile`, `provider_registry`, `registry_laws`, `api_keys` |
| Import and export | `provider_import` |
| Checks and discovery | `provider_validator` |
| Requests, streams, runs | `direct_provider`, `direct_request`, `direct_stream`, `direct_run`, `run_laws`, `direct_auth`, `direct_error`, `conversation`, `tools`, `agent_input` |
| Reports | `direct_telemetry`, `fingerprint` |
| Shared | `text`, `string_map`, `json`, `serde_values`, `http_message`, `http_status`, `endpoint`, `clock`, `fresh_id` |

What other crates compute (JSON texts, URLs, digests, dates, UUIDs) is called
behind small wrappers; their doc comments say what is taken for granted.

`app/` is the code around the library: JSON forms of the settings, HTTP, event
streams, the environment. The library tells it what to send and what to do
next; it sends, and hands back what came.

The ids of Anthropic's models are not built in. `ProviderRegistry::from_existing`
takes the one for a migrated key, and a check takes the one to ask where an
endpoint lists none.
