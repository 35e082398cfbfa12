pub use crate::models::{CandleOptions, SymbolsOptions};
use vstd::prelude::*;
use crate::api::{Client, Config, Datamaxi, Request, is_get};
use crate::endpoint::Endpoint;
use crate::models::{candle_fields, symbols_fields};
use crate::query::{ParamKey, Params, present_entries};

verus! {

/// Candle data of centralised exchanges, and what it is offered for.
#[derive(Clone, Debug)]
pub struct Candle {
    pub client: Client,
}

impl Candle {
    /// Candles of `symbol` on `exchange`, filtered and ordered by `options`.
    pub fn get(&self, exchange: &str, symbol: &str, options: CandleOptions) -> (r: Request)
        ensures
            is_get(
                r,
                self.client,
                Endpoint::CexCandle,
                seq![(ParamKey::Exchange, exchange@), (ParamKey::Symbol, symbol@)]
                    + present_entries(candle_fields(options@)),
            ),
    {
        let mut params = Params::new();
        params.insert(ParamKey::Exchange, exchange.to_owned());
        params.insert(ParamKey::Symbol, symbol.to_owned());
        let ghost required = params@;
        assert(required =~= seq![(ParamKey::Exchange, exchange@), (ParamKey::Symbol, symbol@)]);
        params.add_present(options.into_fields());
        self.client.get(Endpoint::CexCandle, &params)
    }

    /// The exchanges that offer candles for `market`.
    pub fn exchanges(&self, market: &str) -> (r: Request)
        ensures
            is_get(r, self.client, Endpoint::CexCandleExchanges, seq![(ParamKey::Market, market@)]),
    {
        let mut params = Params::new();
        params.insert(ParamKey::Market, market.to_owned());
        self.client.get(Endpoint::CexCandleExchanges, &params)
    }

    /// The symbols of `exchange` that have candles, filtered by `options`.
    pub fn symbols(&self, exchange: &str, options: SymbolsOptions) -> (r: Request)
        ensures
            is_get(
                r,
                self.client,
                Endpoint::CexCandleSymbols,
                seq![(ParamKey::Exchange, exchange@)] + present_entries(symbols_fields(options@)),
            ),
    {
        let mut params = Params::new();
        params.insert(ParamKey::Exchange, exchange.to_owned());
        params.add_present(options.into_fields());
        self.client.get(Endpoint::CexCandleSymbols, &params)
    }

    /// The supported candle intervals.
    pub fn intervals(&self) -> (r: Request)
        ensures
            is_get(r, self.client, Endpoint::CexCandleIntervals, seq![]),
    {
        let params = Params::new();
        self.client.get(Endpoint::CexCandleIntervals, &params)
    }
}

impl Datamaxi for Candle {
    open spec fn api_client(&self) -> Client {
        self.client
    }

    fn new(api_key: String) -> Candle {
        Candle { client: Client::new(Config { base_url: None, api_key }) }
    }

    fn new_with_base_url(api_key: String, base_url: String) -> Candle {
        Candle { client: Client::new(Config { base_url: Some(base_url), api_key }) }
    }
}

} // verus!
