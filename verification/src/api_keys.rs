//! API keys that were stored before there were provider profiles.
use vstd::prelude::*;

verus! {

/// The stored API keys, by vendor.
#[derive(Debug, PartialEq, Eq)]
pub struct ApiKeys {
    pub openai: Option<String>,
    pub anthropic: Option<String>,
    pub google: Option<String>,
    pub open_router: Option<String>,
}

impl Clone for ApiKeys {
    fn clone(&self) -> (r: Self)
        ensures
            r == *self,
    {
        ApiKeys {
            openai: self.openai.clone(),
            anthropic: self.anthropic.clone(),
            google: self.google.clone(),
            open_router: self.open_router.clone(),
        }
    }
}

} // verus!
