use vstd::prelude::*;
use crate::api::{Client, Config, Datamaxi, Request, is_get};
use crate::endpoint::Endpoint;
use crate::query::{ParamKey, Params};

verus! {

/// Search interest over time, from Naver.
#[derive(Clone, Debug)]
pub struct NaverTrend {
    pub client: Client,
}

impl NaverTrend {
    /// The supported symbols.
    pub fn symbols(&self) -> (r: Request)
        ensures
            is_get(r, self.client, Endpoint::NaverTrendSymbols, seq![]),
    {
        self.client.get(Endpoint::NaverTrendSymbols, &Params::new())
    }

    /// The trend of `symbol`: rows of text cells.
    pub fn get(&self, symbol: &str) -> (r: Request)
        ensures
            is_get(r, self.client, Endpoint::NaverTrend, seq![(ParamKey::Symbol, symbol@)]),
    {
        let mut params = Params::new();
        params.insert(ParamKey::Symbol, symbol.to_owned());
        assert(params@ =~= seq![(ParamKey::Symbol, symbol@)]);
        self.client.get(Endpoint::NaverTrend, &params)
    }
}

impl Datamaxi for NaverTrend {
    open spec fn api_client(&self) -> Client {
        self.client
    }

    fn new(api_key: String) -> NaverTrend {
        NaverTrend { client: Client::new(Config { base_url: None, api_key }) }
    }

    fn new_with_base_url(api_key: String, base_url: String) -> NaverTrend {
        NaverTrend { client: Client::new(Config { base_url: Some(base_url), api_key }) }
    }
}

} // verus!
