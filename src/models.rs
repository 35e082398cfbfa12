use vstd::prelude::*;
use crate::query::{ParamKey, text_opt};
use crate::text::{decimal, decimal_text};

verus! {

/// The decimal text of an optional number.
pub open spec fn number_opt(o: Option<i32>) -> Option<Seq<char>> {
    match o {
        Some(n) => Some(decimal(n as int)),
        None => None,
    }
}

fn number_text(o: Option<i32>) -> (r: Option<String>)
    ensures
        text_opt(r) == number_opt(o),
{
    match o {
        Some(n) => Some(decimal_text(n)),
        None => None,
    }
}

fn some_text(s: &str) -> (r: Option<String>)
    ensures
        text_opt(r) == Some(s@),
{
    Some(s.to_owned())
}

/// The fields of an options object, each with the parameter it sets.
pub open spec fn field_view(fields: Seq<(ParamKey, Option<String>)>) -> Seq<(ParamKey, Option<Seq<char>>)> {
    fields.map_values(|f: (ParamKey, Option<String>)| (f.0, text_opt(f.1)))
}

// ---------------------------------------------------------------- candles

/// Optional parameters of a candle request.
pub struct CandleOptions {
    /// The market (e.g. spot, futures).
    pub market: Option<String>,
    /// The candle interval (e.g. 1m, 1h, 1d).
    pub interval: Option<String>,
    /// The page to fetch.
    pub page: Option<i32>,
    /// The number of candles per page.
    pub limit: Option<i32>,
    /// The first date and time.
    pub from: Option<String>,
    /// The last date and time.
    pub to: Option<String>,
    /// The order of the candles ("asc" or "desc").
    pub sort: Option<String>,
    /// The quote currency.
    pub currency: Option<String>,
}

/// A [`CandleOptions`] with its texts as sequences of characters.
pub struct CandleOptionsView {
    pub market: Option<Seq<char>>,
    pub interval: Option<Seq<char>>,
    pub page: Option<i32>,
    pub limit: Option<i32>,
    pub from: Option<Seq<char>>,
    pub to: Option<Seq<char>>,
    pub sort: Option<Seq<char>>,
    pub currency: Option<Seq<char>>,
}

impl View for CandleOptions {
    type V = CandleOptionsView;

    open spec fn view(&self) -> CandleOptionsView {
        CandleOptionsView {
            market: text_opt(self.market),
            interval: text_opt(self.interval),
            page: self.page,
            limit: self.limit,
            from: text_opt(self.from),
            to: text_opt(self.to),
            sort: text_opt(self.sort),
            currency: text_opt(self.currency),
        }
    }
}

/// The parameter of each field of a candle request, in the order they are sent.
pub open spec fn candle_fields(o: CandleOptionsView) -> Seq<(ParamKey, Option<Seq<char>>)> {
    seq![
        (ParamKey::Market, o.market),
        (ParamKey::Interval, o.interval),
        (ParamKey::Page, number_opt(o.page)),
        (ParamKey::Limit, number_opt(o.limit)),
        (ParamKey::From, o.from),
        (ParamKey::To, o.to),
        (ParamKey::Sort, o.sort),
        (ParamKey::Currency, o.currency),
    ]
}

/// Candle options with nothing set.
pub open spec fn candle_defaults() -> CandleOptionsView {
    CandleOptionsView {
        market: None,
        interval: None,
        page: None,
        limit: None,
        from: None,
        to: None,
        sort: None,
        currency: None,
    }
}

impl Default for CandleOptions {
    fn default() -> (r: Self)
        ensures
            r@ == candle_defaults(),
    {
        CandleOptions::new()
    }
}

impl CandleOptions {
    /// Options with nothing set.
    pub fn new() -> (r: Self)
        ensures
            r@ == candle_defaults(),
    {
        CandleOptions {
            market: None,
            interval: None,
            page: None,
            limit: None,
            from: None,
            to: None,
            sort: None,
            currency: None,
        }
    }

    /// Sets the market.
    pub fn market(self, market: &str) -> (r: Self)
        ensures
            r@ == (CandleOptionsView { market: Some(market@), ..self@ }),
    {
        CandleOptions { market: some_text(market), ..self }
    }

    /// Sets the interval.
    pub fn interval(self, interval: &str) -> (r: Self)
        ensures
            r@ == (CandleOptionsView { interval: Some(interval@), ..self@ }),
    {
        CandleOptions { interval: some_text(interval), ..self }
    }

    /// Sets the page.
    pub fn page(self, page: i32) -> (r: Self)
        ensures
            r@ == (CandleOptionsView { page: Some(page), ..self@ }),
    {
        CandleOptions { page: Some(page), ..self }
    }

    /// Sets the number of candles per page.
    pub fn limit(self, limit: i32) -> (r: Self)
        ensures
            r@ == (CandleOptionsView { limit: Some(limit), ..self@ }),
    {
        CandleOptions { limit: Some(limit), ..self }
    }

    /// Sets the first date and time.
    pub fn from(self, from: &str) -> (r: Self)
        ensures
            r@ == (CandleOptionsView { from: Some(from@), ..self@ }),
    {
        CandleOptions { from: some_text(from), ..self }
    }

    /// Sets the last date and time.
    pub fn to(self, to: &str) -> (r: Self)
        ensures
            r@ == (CandleOptionsView { to: Some(to@), ..self@ }),
    {
        CandleOptions { to: some_text(to), ..self }
    }

    /// Sets the order ("asc" or "desc").
    pub fn sort(self, sort: &str) -> (r: Self)
        ensures
            r@ == (CandleOptionsView { sort: Some(sort@), ..self@ }),
    {
        CandleOptions { sort: some_text(sort), ..self }
    }

    /// Sets the quote currency.
    pub fn currency(self, currency: &str) -> (r: Self)
        ensures
            r@ == (CandleOptionsView { currency: Some(currency@), ..self@ }),
    {
        CandleOptions { currency: some_text(currency), ..self }
    }

    /// The fields, each with its parameter, in the order they are sent.
    pub fn into_fields(self) -> (r: Vec<(ParamKey, Option<String>)>)
        ensures
            field_view(r@) == candle_fields(self@),
    {
        let r = vec![
            (ParamKey::Market, self.market),
            (ParamKey::Interval, self.interval),
            (ParamKey::Page, number_text(self.page)),
            (ParamKey::Limit, number_text(self.limit)),
            (ParamKey::From, self.from),
            (ParamKey::To, self.to),
            (ParamKey::Sort, self.sort),
            (ParamKey::Currency, self.currency),
        ];
        assert(field_view(r@) =~= candle_fields(self@));
        r
    }
}

// ---------------------------------------------------------------- symbols

/// Optional parameters of a symbols request.
pub struct SymbolsOptions {
    /// The market (e.g. spot, futures).
    pub market: Option<String>,
}

/// A [`SymbolsOptions`] with its texts as sequences of characters.
pub struct SymbolsOptionsView {
    pub market: Option<Seq<char>>,
}

impl View for SymbolsOptions {
    type V = SymbolsOptionsView;

    open spec fn view(&self) -> SymbolsOptionsView {
        SymbolsOptionsView { market: text_opt(self.market) }
    }
}

/// The parameter of each field of a symbols request.
pub open spec fn symbols_fields(o: SymbolsOptionsView) -> Seq<(ParamKey, Option<Seq<char>>)> {
    seq![(ParamKey::Market, o.market)]
}

impl Default for SymbolsOptions {
    fn default() -> (r: Self)
        ensures
            r@ == (SymbolsOptionsView { market: None }),
    {
        SymbolsOptions::new()
    }
}

impl SymbolsOptions {
    /// Options with nothing set.
    pub fn new() -> (r: Self)
        ensures
            r@ == (SymbolsOptionsView { market: None }),
    {
        SymbolsOptions { market: None }
    }

    /// Sets the market.
    pub fn market(self, market: &str) -> (r: Self)
        ensures
            r@ == (SymbolsOptionsView { market: Some(market@) }),
    {
        SymbolsOptions { market: some_text(market) }
    }

    /// The fields, each with its parameter.
    pub fn into_fields(self) -> (r: Vec<(ParamKey, Option<String>)>)
        ensures
            field_view(r@) == symbols_fields(self@),
    {
        let r = vec![(ParamKey::Market, self.market)];
        assert(field_view(r@) =~= symbols_fields(self@));
        r
    }
}

// ---------------------------------------------------------------- trades

/// Optional parameters of a trade request.
pub struct TradeOptions {
    /// The page to fetch.
    pub page: Option<i32>,
    /// The number of trades per page.
    pub limit: Option<i32>,
    /// The first date.
    pub from: Option<String>,
    /// The last date.
    pub to: Option<String>,
    /// The order of the trades ("asc" or "desc").
    pub sort: Option<String>,
}

/// A [`TradeOptions`] with its texts as sequences of characters.
pub struct TradeOptionsView {
    pub page: Option<i32>,
    pub limit: Option<i32>,
    pub from: Option<Seq<char>>,
    pub to: Option<Seq<char>>,
    pub sort: Option<Seq<char>>,
}

impl View for TradeOptions {
    type V = TradeOptionsView;

    open spec fn view(&self) -> TradeOptionsView {
        TradeOptionsView {
            page: self.page,
            limit: self.limit,
            from: text_opt(self.from),
            to: text_opt(self.to),
            sort: text_opt(self.sort),
        }
    }
}

/// The defaults of a trade request: page 1, 1000 per page, newest first, no dates.
pub open spec fn trade_defaults() -> TradeOptionsView {
    TradeOptionsView { page: Some(1), limit: Some(1000), from: None, to: None, sort: Some("desc"@) }
}

/// The parameter of each field of a trade request, in the order they are sent.
pub open spec fn trade_fields(o: TradeOptionsView) -> Seq<(ParamKey, Option<Seq<char>>)> {
    seq![
        (ParamKey::Page, number_opt(o.page)),
        (ParamKey::Limit, number_opt(o.limit)),
        (ParamKey::From, o.from),
        (ParamKey::To, o.to),
        (ParamKey::Sort, o.sort),
    ]
}

impl Default for TradeOptions {
    fn default() -> (r: Self)
        ensures
            r@ == trade_defaults(),
    {
        TradeOptions::new()
    }
}

impl TradeOptions {
    /// The defaults: page 1, 1000 per page, sorted "desc", no dates.
    pub fn new() -> (r: Self)
        ensures
            r@ == trade_defaults(),
    {
        TradeOptions { page: Some(1), limit: Some(1000), from: None, to: None, sort: some_text("desc") }
    }

    /// Sets the page.
    pub fn page(self, page: i32) -> (r: Self)
        ensures
            r@ == (TradeOptionsView { page: Some(page), ..self@ }),
    {
        TradeOptions { page: Some(page), ..self }
    }

    /// Sets the number of trades per page.
    pub fn limit(self, limit: i32) -> (r: Self)
        ensures
            r@ == (TradeOptionsView { limit: Some(limit), ..self@ }),
    {
        TradeOptions { limit: Some(limit), ..self }
    }

    /// Sets the first date.
    pub fn from(self, from: &str) -> (r: Self)
        ensures
            r@ == (TradeOptionsView { from: Some(from@), ..self@ }),
    {
        TradeOptions { from: some_text(from), ..self }
    }

    /// Sets the last date.
    pub fn to(self, to: &str) -> (r: Self)
        ensures
            r@ == (TradeOptionsView { to: Some(to@), ..self@ }),
    {
        TradeOptions { to: some_text(to), ..self }
    }

    /// Sets the order ("asc" or "desc").
    pub fn sort(self, sort: &str) -> (r: Self)
        ensures
            r@ == (TradeOptionsView { sort: Some(sort@), ..self@ }),
    {
        TradeOptions { sort: some_text(sort), ..self }
    }

    /// The fields, each with its parameter, in the order they are sent.
    pub fn into_fields(self) -> (r: Vec<(ParamKey, Option<String>)>)
        ensures
            field_view(r@) == trade_fields(self@),
    {
        let r = vec![
            (ParamKey::Page, number_text(self.page)),
            (ParamKey::Limit, number_text(self.limit)),
            (ParamKey::From, self.from),
            (ParamKey::To, self.to),
            (ParamKey::Sort, self.sort),
        ];
        assert(field_view(r@) =~= trade_fields(self@));
        r
    }
}

// ---------------------------------------------------------------- pools

/// Optional parameters of a pools request.
pub struct PoolsOptions {
    /// The chain.
    pub chain: Option<String>,
    /// The exchange.
    pub exchange: Option<String>,
}

/// A [`PoolsOptions`] with its texts as sequences of characters.
pub struct PoolsOptionsView {
    pub chain: Option<Seq<char>>,
    pub exchange: Option<Seq<char>>,
}

impl View for PoolsOptions {
    type V = PoolsOptionsView;

    open spec fn view(&self) -> PoolsOptionsView {
        PoolsOptionsView { chain: text_opt(self.chain), exchange: text_opt(self.exchange) }
    }
}

/// The parameter of each field of a pools request, in the order they are sent.
pub open spec fn pools_fields(o: PoolsOptionsView) -> Seq<(ParamKey, Option<Seq<char>>)> {
    seq![(ParamKey::Chain, o.chain), (ParamKey::Exchange, o.exchange)]
}

impl Default for PoolsOptions {
    fn default() -> (r: Self)
        ensures
            r@ == (PoolsOptionsView { chain: None, exchange: None }),
    {
        PoolsOptions::new()
    }
}

impl PoolsOptions {
    /// Options with nothing set.
    pub fn new() -> (r: Self)
        ensures
            r@ == (PoolsOptionsView { chain: None, exchange: None }),
    {
        PoolsOptions { chain: None, exchange: None }
    }

    /// Sets the chain.
    pub fn chain(self, chain: &str) -> (r: Self)
        ensures
            r@ == (PoolsOptionsView { chain: Some(chain@), ..self@ }),
    {
        PoolsOptions { chain: some_text(chain), ..self }
    }

    /// Sets the exchange.
    pub fn exchange(self, exchange: &str) -> (r: Self)
        ensures
            r@ == (PoolsOptionsView { exchange: Some(exchange@), ..self@ }),
    {
        PoolsOptions { exchange: some_text(exchange), ..self }
    }

    /// The fields, each with its parameter, in the order they are sent.
    pub fn into_fields(self) -> (r: Vec<(ParamKey, Option<String>)>)
        ensures
            field_view(r@) == pools_fields(self@),
    {
        let r = vec![(ParamKey::Chain, self.chain), (ParamKey::Exchange, self.exchange)];
        assert(field_view(r@) =~= pools_fields(self@));
        r
    }
}

// ---------------------------------------------------------------- responses

/// One candle. Prices and volume are kept as the decimal text the server sends.
#[derive(Clone, Debug, PartialEq, Eq)]
pub struct CandleDetail {
    /// Open time (wire name `d`).
    pub timestamp: i64,
    /// Opening price (wire name `o`).
    pub open: String,
    /// Highest price (wire name `h`).
    pub high: String,
    /// Lowest price (wire name `l`).
    pub low: String,
    /// Closing price (wire name `c`).
    pub close: String,
    /// Volume in the base currency (wire name `v`).
    pub volume: String,
}

/// Candles, with the request they answer.
#[derive(Clone, Debug, PartialEq, Eq)]
pub struct CandleResponse {
    pub data: Vec<CandleDetail>,
    pub exchange: String,
    pub symbol: String,
    pub market: String,
    pub currency: String,
    pub interval: String,
    pub sort: String,
}

/// One trade.
#[derive(Clone, Debug, PartialEq, Eq)]
pub struct TradeDetail {
    /// Time of the trade (wire name `d`).
    pub timestamp: String,
    /// Block number (wire name `b`).
    pub block_number: i64,
    /// Pool (wire name `pool`).
    pub pool: String,
    /// Symbol, e.g. BTC-USDT (wire name `s`).
    pub symbol: String,
    /// Transaction hash (wire name `tx`).
    pub transaction_hash: String,
    /// Maker (wire name `m`).
    pub maker: String,
    /// Buy or sell (wire name `t`).
    pub trade_type: String,
    /// Base quantity, in base units (wire name `bq`).
    pub base_quantity: String,
    /// Quote quantity, in base units (wire name `qq`).
    pub quote_quantity: String,
    /// Price in the quote asset (wire name `p`).
    pub price: String,
}

/// One page of trades, with the request it answers.
#[derive(Clone, Debug, PartialEq, Eq)]
pub struct TradeResponse {
    pub data: Vec<TradeDetail>,
    pub page: i32,
    pub limit: i32,
    pub from: String,
    pub to: String,
    pub sort: String,
}

/// A supported symbol.
#[derive(Clone, Debug, PartialEq, Eq)]
pub struct SymbolsResponse {
    /// Exchange (wire name `e`).
    pub exchange: String,
    /// Market (wire name `m`).
    pub market: String,
    /// Base asset (wire name `b`).
    pub base: String,
    /// Quote asset (wire name `q`).
    pub quote: String,
    /// Symbol (wire name `s`).
    pub symbol: String,
    /// Identifier (wire name `id`).
    pub id: Option<String>,
}

/// A DEX pool.
#[derive(Clone, Debug, PartialEq, Eq)]
pub struct PoolsResponse {
    /// Chain (wire name `c`).
    pub chain: String,
    /// Exchange (wire name `e`).
    pub exchange: String,
    /// Base asset (wire name `b`).
    pub base: String,
    /// Quote asset (wire name `q`).
    pub quote: String,
    /// Address of the base token (wire name `ba`).
    pub base_address: String,
    /// Address of the quote token (wire name `qa`).
    pub quote_address: String,
    /// Address of the pool (wire name `pa`).
    pub pool_address: String,
    /// Identifier (wire name `id`).
    pub id: Option<String>,
}

} // verus!
