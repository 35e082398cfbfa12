use vstd::prelude::*;
use crate::api::{Client, Config, Datamaxi, Request, is_get};
use crate::endpoint::Endpoint;
use crate::query::{ParamKey, Params};

verus! {

/// Funding rates of perpetual futures.
#[derive(Clone, Debug)]
pub struct FundingRate {
    pub client: Client,
}

impl FundingRate {
    /// The exchanges that have funding rates for `market`.
    pub fn exchanges(&self, market: &str) -> (r: Request)
        ensures
            is_get(r, self.client, Endpoint::FundingRateExchanges, seq![(ParamKey::Market, market@)]),
    {
        let mut params = Params::new();
        params.insert(ParamKey::Market, market.to_owned());
        assert(params@ =~= seq![(ParamKey::Market, market@)]);
        self.client.get(Endpoint::FundingRateExchanges, &params)
    }

    /// The symbols of `exchange` that have funding rates for `market`.
    pub fn symbols(&self, exchange: &str, market: &str) -> (r: Request)
        ensures
            is_get(r, self.client, Endpoint::FundingRateSymbols, seq![(ParamKey::Exchange, exchange@), (ParamKey::Market, market@)]),
    {
        let mut params = Params::new();
        params.insert(ParamKey::Exchange, exchange.to_owned());
        params.insert(ParamKey::Market, market.to_owned());
        assert(params@ =~= seq![(ParamKey::Exchange, exchange@), (ParamKey::Market, market@)]);
        self.client.get(Endpoint::FundingRateSymbols, &params)
    }

    /// The latest funding rate of every symbol.
    pub fn get_latest(&self) -> (r: Request)
        ensures
            is_get(r, self.client, Endpoint::FundingRateLatest, seq![]),
    {
        self.client.get(Endpoint::FundingRateLatest, &Params::new())
    }

    /// The funding rates of `symbol` on `exchange` over time.
    pub fn get_historical(&self, symbol: &str, exchange: &str) -> (r: Request)
        ensures
            is_get(r, self.client, Endpoint::FundingRateHistorical, seq![(ParamKey::Symbol, symbol@), (ParamKey::Exchange, exchange@)]),
    {
        let mut params = Params::new();
        params.insert(ParamKey::Symbol, symbol.to_owned());
        params.insert(ParamKey::Exchange, exchange.to_owned());
        assert(params@ =~= seq![(ParamKey::Symbol, symbol@), (ParamKey::Exchange, exchange@)]);
        self.client.get(Endpoint::FundingRateHistorical, &params)
    }
}

impl Datamaxi for FundingRate {
    open spec fn api_client(&self) -> Client {
        self.client
    }

    fn new(api_key: String) -> FundingRate {
        FundingRate { client: Client::new(Config { base_url: None, api_key }) }
    }

    fn new_with_base_url(api_key: String, base_url: String) -> FundingRate {
        FundingRate { client: Client::new(Config { base_url: Some(base_url), api_key }) }
    }
}

} // verus!
