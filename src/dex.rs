pub use crate::models::{CandleOptions, PoolsOptions, TradeOptions};
use vstd::prelude::*;
use crate::api::{Client, Config, Datamaxi, Request, is_get};
use crate::endpoint::Endpoint;
use crate::models::{candle_fields, pools_fields, trade_fields};
use crate::query::{Entries, ParamKey, Params, present_entries};

verus! {

/// The parameters that name one pool: its chain, exchange and address.
pub open spec fn pool_entries(chain: Seq<char>, exchange: Seq<char>, pool: Seq<char>) -> Entries {
    seq![(ParamKey::Chain, chain), (ParamKey::Exchange, exchange), (ParamKey::Pool, pool)]
}

fn pool_params(chain: &str, exchange: &str, pool: &str) -> (r: Params)
    ensures
        r.wf(),
        r@ == pool_entries(chain@, exchange@, pool@),
{
    let mut params = Params::new();
    params.insert(ParamKey::Chain, chain.to_owned());
    params.insert(ParamKey::Exchange, exchange.to_owned());
    params.insert(ParamKey::Pool, pool.to_owned());
    assert(params@ =~= pool_entries(chain@, exchange@, pool@));
    params
}

fn candle_request(client: &Client, chain: &str, exchange: &str, pool: &str, options: CandleOptions) -> (r: Request)
    ensures
        is_get(
            r,
            *client,
            Endpoint::DexCandle,
            pool_entries(chain@, exchange@, pool@) + present_entries(candle_fields(options@)),
        ),
{
    let mut params = pool_params(chain, exchange, pool);
    params.add_present(options.into_fields());
    client.get(Endpoint::DexCandle, &params)
}

fn trade_request(client: &Client, chain: &str, exchange: &str, pool: &str, options: TradeOptions) -> (r: Request)
    ensures
        is_get(
            r,
            *client,
            Endpoint::DexTrade,
            pool_entries(chain@, exchange@, pool@) + present_entries(trade_fields(options@)),
        ),
{
    let mut params = pool_params(chain, exchange, pool);
    params.add_present(options.into_fields());
    client.get(Endpoint::DexTrade, &params)
}

fn pools_request(client: &Client, options: PoolsOptions) -> (r: Request)
    ensures
        is_get(r, *client, Endpoint::DexPools, present_entries(pools_fields(options@))),
{
    let mut params = Params::new();
    params.add_present(options.into_fields());
    assert(params@ =~= present_entries(pools_fields(options@)));
    client.get(Endpoint::DexPools, &params)
}

/// Candle data of a DEX pool.
#[derive(Clone, Debug)]
pub struct Candle {
    pub client: Client,
}

impl Candle {
    /// Candles of `pool` on `exchange` of `chain`, filtered and ordered by `options`.
    pub fn get(&self, chain: &str, exchange: &str, pool: &str, options: CandleOptions) -> (r: Request)
        ensures
            is_get(
                r,
                self.client,
                Endpoint::DexCandle,
                pool_entries(chain@, exchange@, pool@) + present_entries(candle_fields(options@)),
            ),
    {
        candle_request(&self.client, chain, exchange, pool, options)
    }
}

/// Trades of a DEX pool.
#[derive(Clone, Debug)]
pub struct Trade {
    pub client: Client,
}

impl Trade {
    /// Trades of `pool` on `exchange` of `chain`, paged and ordered by `options`.
    pub fn get(&self, chain: &str, exchange: &str, pool: &str, options: TradeOptions) -> (r: Request)
        ensures
            is_get(
                r,
                self.client,
                Endpoint::DexTrade,
                pool_entries(chain@, exchange@, pool@) + present_entries(trade_fields(options@)),
            ),
    {
        trade_request(&self.client, chain, exchange, pool, options)
    }
}

/// The pools that DEX data exists for.
#[derive(Clone, Debug)]
pub struct Pool {
    pub client: Client,
}

impl Pool {
    /// The pools, filtered by chain and exchange where `options` sets them.
    pub fn get(&self, options: PoolsOptions) -> (r: Request)
        ensures
            is_get(r, self.client, Endpoint::DexPools, present_entries(pools_fields(options@))),
    {
        pools_request(&self.client, options)
    }
}

/// All DEX data behind one client.
#[derive(Clone, Debug)]
pub struct Dex {
    pub client: Client,
}

impl Dex {
    /// Candles of `pool` on `exchange` of `chain`, filtered and ordered by `options`.
    pub fn candle(&self, chain: &str, exchange: &str, pool: &str, options: CandleOptions) -> (r: Request)
        ensures
            is_get(
                r,
                self.client,
                Endpoint::DexCandle,
                pool_entries(chain@, exchange@, pool@) + present_entries(candle_fields(options@)),
            ),
    {
        candle_request(&self.client, chain, exchange, pool, options)
    }

    /// Trades of `pool` on `exchange` of `chain`, paged and ordered by `options`.
    pub fn trade(&self, chain: &str, exchange: &str, pool: &str, options: TradeOptions) -> (r: Request)
        ensures
            is_get(
                r,
                self.client,
                Endpoint::DexTrade,
                pool_entries(chain@, exchange@, pool@) + present_entries(trade_fields(options@)),
            ),
    {
        trade_request(&self.client, chain, exchange, pool, options)
    }

    /// The pools, filtered by chain and exchange where `options` sets them.
    pub fn pools(&self, options: PoolsOptions) -> (r: Request)
        ensures
            is_get(r, self.client, Endpoint::DexPools, present_entries(pools_fields(options@))),
    {
        pools_request(&self.client, options)
    }

    /// The supported chains.
    pub fn chains(&self) -> (r: Request)
        ensures
            is_get(r, self.client, Endpoint::DexChains, seq![]),
    {
        self.client.get(Endpoint::DexChains, &Params::new())
    }

    /// The supported exchanges.
    pub fn exchanges(&self) -> (r: Request)
        ensures
            is_get(r, self.client, Endpoint::DexExchanges, seq![]),
    {
        self.client.get(Endpoint::DexExchanges, &Params::new())
    }

    /// The supported candle intervals.
    pub fn intervals(&self) -> (r: Request)
        ensures
            is_get(r, self.client, Endpoint::DexIntervals, seq![]),
    {
        self.client.get(Endpoint::DexIntervals, &Params::new())
    }
}

impl Datamaxi for Candle {
    open spec fn api_client(&self) -> Client {
        self.client
    }

    fn new(api_key: String) -> Candle {
        Candle { client: Client::new(Config { base_url: None, api_key }) }
    }

    fn new_with_base_url(api_key: String, base_url: String) -> Candle {
        Candle { client: Client::new(Config { base_url: Some(base_url), api_key }) }
    }
}

impl Datamaxi for Trade {
    open spec fn api_client(&self) -> Client {
        self.client
    }

    fn new(api_key: String) -> Trade {
        Trade { client: Client::new(Config { base_url: None, api_key }) }
    }

    fn new_with_base_url(api_key: String, base_url: String) -> Trade {
        Trade { client: Client::new(Config { base_url: Some(base_url), api_key }) }
    }
}

impl Datamaxi for Pool {
    open spec fn api_client(&self) -> Client {
        self.client
    }

    fn new(api_key: String) -> Pool {
        Pool { client: Client::new(Config { base_url: None, api_key }) }
    }

    fn new_with_base_url(api_key: String, base_url: String) -> Pool {
        Pool { client: Client::new(Config { base_url: Some(base_url), api_key }) }
    }
}

impl Datamaxi for Dex {
    open spec fn api_client(&self) -> Client {
        self.client
    }

    fn new(api_key: String) -> Dex {
        Dex { client: Client::new(Config { base_url: None, api_key }) }
    }

    fn new_with_base_url(api_key: String, base_url: String) -> Dex {
        Dex { client: Client::new(Config { base_url: Some(base_url), api_key }) }
    }
}

} // verus!
