use vstd::prelude::*;
use crate::api::{Client, Config, Datamaxi, Request, is_get};
use crate::endpoint::Endpoint;
use crate::query::{ParamKey, Params};

verus! {

/// Candle data in its generic form: every parameter is given, and the query
/// lists them by name in alphabetical order.
#[derive(Clone, Debug)]
pub struct Candle {
    pub client: Client,
}

impl Candle {
    /// The exchanges that offer candles for `market`.
    pub fn exchanges(&self, market: &str) -> (r: Request)
        ensures
            is_get(r, self.client, Endpoint::CandleExchanges, seq![(ParamKey::Market, market@)]),
    {
        let mut params = Params::new();
        params.insert(ParamKey::Market, market.to_owned());
        assert(params@ =~= seq![(ParamKey::Market, market@)]);
        self.client.get(Endpoint::CandleExchanges, &params)
    }

    /// The symbols of `exchange` that have candles for `market`.
    pub fn symbols(&self, exchange: &str, market: &str) -> (r: Request)
        ensures
            is_get(
                r,
                self.client,
                Endpoint::CandleSymbols,
                seq![(ParamKey::Exchange, exchange@), (ParamKey::Market, market@)],
            ),
    {
        let mut params = Params::new();
        params.insert(ParamKey::Exchange, exchange.to_owned());
        params.insert(ParamKey::Market, market.to_owned());
        assert(params@ =~= seq![(ParamKey::Exchange, exchange@), (ParamKey::Market, market@)]);
        self.client.get(Endpoint::CandleSymbols, &params)
    }

    /// The candle intervals of `exchange` for `market`.
    pub fn intervals(&self, exchange: &str, market: &str) -> (r: Request)
        ensures
            is_get(
                r,
                self.client,
                Endpoint::CandleIntervals,
                seq![(ParamKey::Exchange, exchange@), (ParamKey::Market, market@)],
            ),
    {
        let mut params = Params::new();
        params.insert(ParamKey::Exchange, exchange.to_owned());
        params.insert(ParamKey::Market, market.to_owned());
        assert(params@ =~= seq![(ParamKey::Exchange, exchange@), (ParamKey::Market, market@)]);
        self.client.get(Endpoint::CandleIntervals, &params)
    }

    /// Candles of `symbol` on `exchange`, for `market`, at `interval`.
    pub fn get(&self, symbol: &str, exchange: &str, market: &str, interval: &str) -> (r: Request)
        ensures
            is_get(
                r,
                self.client,
                Endpoint::Candle,
                seq![
                    (ParamKey::Exchange, exchange@),
                    (ParamKey::Interval, interval@),
                    (ParamKey::Market, market@),
                    (ParamKey::Symbol, symbol@),
                ],
            ),
    {
        let mut params = Params::new();
        params.insert(ParamKey::Exchange, exchange.to_owned());
        params.insert(ParamKey::Interval, interval.to_owned());
        params.insert(ParamKey::Market, market.to_owned());
        params.insert(ParamKey::Symbol, symbol.to_owned());
        assert(params@ =~= seq![
            (ParamKey::Exchange, exchange@),
            (ParamKey::Interval, interval@),
            (ParamKey::Market, market@),
            (ParamKey::Symbol, symbol@),
        ]);
        self.client.get(Endpoint::Candle, &params)
    }
}

impl Datamaxi for Candle {
    open spec fn api_client(&self) -> Client {
        self.client
    }

    fn new(api_key: String) -> Candle {
        Candle { client: Client::new(Config { base_url: None, api_key }) }
    }

    fn new_with_base_url(api_key: String, base_url: String) -> Candle {
        Candle { client: Client::new(Config { base_url: Some(base_url), api_key }) }
    }
}

} // verus!
