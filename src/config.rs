//! Settings for reaching the hub.
use vstd::prelude::*;

verus! {

/// The hub's base URL and the key that authenticates this client.
#[derive(Clone, Debug)]
pub struct Config {
    pub api_key: String,
    pub hub_url: String,
}

impl Config {
    pub fn new(api_key: String, hub_url: String) -> (r: Config)
        ensures
            r.api_key@ == api_key@,
            r.hub_url@ == hub_url@,
    {
        Config { api_key, hub_url }
    }

    /// The endpoint that receives command documents: `<hub_url>/command`.
    pub fn command_url(&self) -> (r: String)
        ensures
            r@ == self.hub_url@ + "/command"@,
    {
        let mut url = self.hub_url.clone();
        url.append("/command");
        url
    }
}

} // verus!
