use vstd::prelude::*;
use crate::api::{Client, Config, Datamaxi, Request, is_get};
use crate::endpoint::Endpoint;
use crate::query::Params;

verus! {

/// Foreign exchange rates.
#[derive(Clone, Debug)]
pub struct Forex {
    pub client: Client,
}

impl Forex {
    /// The supported currency pairs.
    pub fn symbols(&self) -> (r: Request)
        ensures
            is_get(r, self.client, Endpoint::ForexSymbols, seq![]),
    {
        self.client.get(Endpoint::ForexSymbols, &Params::new())
    }

    /// The current rate of every pair.
    pub fn get(&self) -> (r: Request)
        ensures
            is_get(r, self.client, Endpoint::Forex, seq![]),
    {
        self.client.get(Endpoint::Forex, &Params::new())
    }
}

impl Datamaxi for Forex {
    open spec fn api_client(&self) -> Client {
        self.client
    }

    fn new(api_key: String) -> Forex {
        Forex { client: Client::new(Config { base_url: None, api_key }) }
    }

    fn new_with_base_url(api_key: String, base_url: String) -> Forex {
        Forex { client: Client::new(Config { base_url: Some(base_url), api_key }) }
    }
}

} // verus!
