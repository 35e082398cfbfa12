use datamaxi::api::{Client, Config, Datamaxi, API_KEY_HEADER, BASE_URL};
use datamaxi::cex;
use datamaxi::dex;
use datamaxi::endpoint::Endpoint;
use datamaxi::forex::Forex;
use datamaxi::fundingrate::FundingRate;
use datamaxi::google::GoogleTrend;
use datamaxi::models::{CandleOptions, PoolsOptions, SymbolsOptions, TradeOptions};
use datamaxi::naver::NaverTrend;
use datamaxi::query::{ParamKey, Params};

const POOL: &str = "0xb24cd29e32FaCDDf9e73831d5cD1FFcd1e535423";

fn url(rest: &str) -> String {
    format!("{}{}", BASE_URL, rest)
}

#[test]
fn default_base_url_and_key() {
    let candle: cex::Candle = Datamaxi::new("my_api_key".to_string());
    assert_eq!(candle.client.base_url, "https://api.datamaxiplus.com/api/v1");
    assert_eq!(candle.client.api_key, "my_api_key");
    let r = candle.intervals();
    assert_eq!(r.api_key, "my_api_key");
    assert_eq!(API_KEY_HEADER, "X-DTMX-APIKEY");
}

#[test]
fn custom_base_url() {
    let pool = dex::Pool::new_with_base_url("k".to_string(), "https://custom.example.com".to_string());
    let r = pool.get(PoolsOptions::new());
    assert_eq!(r.url, "https://custom.example.com/dex/pools");
    assert_eq!(r.api_key, "k");
}

#[test]
fn client_from_config() {
    let c = Client::new(Config { base_url: None, api_key: "a".to_string() });
    assert_eq!(c.base_url, BASE_URL);
    let c = Client::new(Config { base_url: Some("http://h".to_string()), api_key: "a".to_string() });
    assert_eq!(c.base_url, "http://h");
}

#[test]
fn path_table() {
    let cases = [
        (Endpoint::CexCandle, "/cex/candle"),
        (Endpoint::CexCandleExchanges, "/cex/candle/exchanges"),
        (Endpoint::CexCandleSymbols, "/cex/candle/symbols"),
        (Endpoint::CexCandleIntervals, "/cex/candle/intervals"),
        (Endpoint::DexCandle, "/dex/candle"),
        (Endpoint::DexTrade, "/dex/trade"),
        (Endpoint::DexPools, "/dex/pools"),
        (Endpoint::FundingRateLatest, "/funding-rate/latest"),
        (Endpoint::GoogleTrend, "/google/trend"),
    ];
    for (e, p) in cases {
        assert_eq!(e.path(), p);
    }
}

#[test]
fn cex_candle_exchanges_path() {
    let candle: cex::Candle = Datamaxi::new("k".to_string());
    assert_eq!(candle.exchanges("spot").url, url("/cex/candle/exchanges?market=spot"));
    assert_eq!(candle.intervals().url, url("/cex/candle/intervals"));
}

#[test]
fn cex_candle_with_options() {
    let candle: cex::Candle = Datamaxi::new("k".to_string());
    let options = CandleOptions::new().interval("1h").market("spot");
    assert_eq!(
        candle.get("binance", "BTC-USDT", options).url,
        url("/cex/candle?exchange=binance&symbol=BTC-USDT&market=spot&interval=1h")
    );
}

#[test]
fn cex_candle_without_options_sends_required_only() {
    let candle: cex::Candle = Datamaxi::new("k".to_string());
    assert_eq!(
        candle.get("binance", "ETH-USDT", CandleOptions::new()).url,
        url("/cex/candle?exchange=binance&symbol=ETH-USDT")
    );
}

#[test]
fn cex_candle_every_option() {
    let candle: cex::Candle = Datamaxi::new("k".to_string());
    let options = CandleOptions::new()
        .currency("USD")
        .sort("asc")
        .to("2024-02-01")
        .from("2024-01-01")
        .limit(100)
        .page(2)
        .interval("1d")
        .market("futures");
    assert_eq!(
        candle.get("upbit", "BTC-KRW", options).url,
        url("/cex/candle?exchange=upbit&symbol=BTC-KRW&market=futures&interval=1d&page=2&limit=100&from=2024-01-01&to=2024-02-01&sort=asc&currency=USD")
    );
}

#[test]
fn cex_symbols_market_optional() {
    let candle: cex::Candle = Datamaxi::new("k".to_string());
    assert_eq!(candle.symbols("binance", SymbolsOptions::new()).url, url("/cex/candle/symbols?exchange=binance"));
    assert_eq!(
        candle.symbols("binance", SymbolsOptions::new().market("spot")).url,
        url("/cex/candle/symbols?exchange=binance&market=spot")
    );
}

#[test]
fn dex_trade_defaults() {
    let trade: dex::Trade = Datamaxi::new("k".to_string());
    assert_eq!(
        trade.get("bsc_mainnet", "pancakeswap", POOL, TradeOptions::new()).url,
        url(&format!("/dex/trade?chain=bsc_mainnet&exchange=pancakeswap&pool={}&page=1&limit=1000&sort=desc", POOL))
    );
}

#[test]
fn dex_trade_limit_and_dates() {
    let dex: dex::Dex = Datamaxi::new("k".to_string());
    let options = TradeOptions::new().limit(5).from("2024-01-01").to("2024-01-02");
    assert_eq!(
        dex.trade("bsc_mainnet", "pancakeswap", POOL, options).url,
        url(&format!("/dex/trade?chain=bsc_mainnet&exchange=pancakeswap&pool={}&page=1&limit=5&from=2024-01-01&to=2024-01-02&sort=desc", POOL))
    );
}

#[test]
fn dex_candle_request() {
    let candle: dex::Candle = Datamaxi::new("k".to_string());
    let options = CandleOptions::new().interval("1h").limit(100);
    assert_eq!(
        candle.get("kaia_mainnet", "dragonswap", "0xabc", options).url,
        url("/dex/candle?chain=kaia_mainnet&exchange=dragonswap&pool=0xabc&interval=1h&limit=100")
    );
}

#[test]
fn dex_pools_with_chain() {
    let pool: dex::Pool = Datamaxi::new("k".to_string());
    let r = pool.get(PoolsOptions::new().chain("bsc_mainnet"));
    assert_eq!(r.url, "https://api.datamaxiplus.com/api/v1/dex/pools?chain=bsc_mainnet");
    let r = pool.get(PoolsOptions::new().exchange("pancakeswap").chain("bsc_mainnet"));
    assert_eq!(r.url, url("/dex/pools?chain=bsc_mainnet&exchange=pancakeswap"));
}

#[test]
fn dex_listings() {
    let dex: dex::Dex = Datamaxi::new("k".to_string());
    assert_eq!(dex.chains().url, url("/dex/chains"));
    assert_eq!(dex.exchanges().url, url("/dex/exchanges"));
    assert_eq!(dex.intervals().url, url("/dex/intervals"));
    assert_eq!(dex.pools(PoolsOptions::new()).url, url("/dex/pools"));
    assert_eq!(
        dex.candle("c", "e", "p", CandleOptions::new()).url,
        url("/dex/candle?chain=c&exchange=e&pool=p")
    );
}

#[test]
fn funding_rate_requests() {
    let f: FundingRate = Datamaxi::new("k".to_string());
    assert_eq!(f.exchanges("futures").url, url("/funding-rate/exchanges?market=futures"));
    assert_eq!(f.symbols("binance", "futures").url, url("/funding-rate/symbols?exchange=binance&market=futures"));
    assert_eq!(f.get_latest().url, url("/funding-rate/latest"));
    assert_eq!(f.get_historical("BTC-USDT", "binance").url, url("/funding-rate?symbol=BTC-USDT&exchange=binance"));
}

#[test]
fn forex_and_trend_requests() {
    let forex: Forex = Datamaxi::new("k".to_string());
    assert_eq!(forex.symbols().url, url("/forex/symbols"));
    assert_eq!(forex.get().url, url("/forex"));
    let google: GoogleTrend = Datamaxi::new("k".to_string());
    assert_eq!(google.keywords().url, url("/google/keywords"));
    assert_eq!(google.get("bitcoin").url, url("/google/trend?keyword=bitcoin"));
    let naver: NaverTrend = Datamaxi::new("k".to_string());
    assert_eq!(naver.symbols().url, url("/naver/symbols"));
    assert_eq!(naver.get("BTC").url, url("/naver/trend?symbol=BTC"));
}

#[test]
fn values_are_form_encoded() {
    let trade: dex::Trade = Datamaxi::new("k".to_string());
    let options = TradeOptions::new().from("2024-01-01 00:00:00").sort("a&b=c");
    assert_eq!(
        trade.get("c", "e", "p", options).url,
        url("/dex/trade?chain=c&exchange=e&pool=p&page=1&limit=1000&from=2024-01-01+00%3A00%3A00&sort=a%26b%3Dc")
    );
    let google: GoogleTrend = Datamaxi::new("k".to_string());
    assert_eq!(google.get("é*-._~").url, url("/google/trend?keyword=%C3%A9*-._%7E"));
}

#[test]
fn negative_and_extreme_numbers() {
    let trade: dex::Trade = Datamaxi::new("k".to_string());
    let options = TradeOptions::new().page(-5).limit(i32::MIN);
    assert_eq!(
        trade.get("c", "e", "p", options).url,
        url("/dex/trade?chain=c&exchange=e&pool=p&page=-5&limit=-2147483648&sort=desc")
    );
    let options = TradeOptions::new().page(0).limit(i32::MAX);
    assert_eq!(
        trade.get("c", "e", "p", options).url,
        url("/dex/trade?chain=c&exchange=e&pool=p&page=0&limit=2147483647&sort=desc")
    );
}

#[test]
fn same_options_same_query() {
    let trade: dex::Trade = Datamaxi::new("k".to_string());
    let first = trade.get("c", "e", "p", TradeOptions::new().limit(7).from("x"));
    let second = trade.get("c", "e", "p", TradeOptions::new().limit(7).from("x"));
    assert_eq!(first.url, second.url);
    let mut params = Params::new();
    params.insert(ParamKey::Market, "spot".to_string());
    params.insert(ParamKey::Page, "3".to_string());
    assert_eq!(params.to_query(), params.to_query());
    assert_eq!(params.to_query(), "market=spot&page=3");
}

#[test]
fn last_write_wins() {
    let mut params = Params::new();
    assert_eq!(params.to_query(), "");
    params.insert(ParamKey::Market, "spot".to_string());
    params.insert(ParamKey::Exchange, "binance".to_string());
    params.insert(ParamKey::Market, "futures".to_string());
    assert_eq!(params.len(), 2);
    assert_eq!(params.to_query(), "market=futures&exchange=binance");
}

#[test]
fn empty_query_adds_no_question_mark() {
    let c = Client::new(Config { base_url: None, api_key: "k".to_string() });
    let r = c.get(Endpoint::ForexSymbols, &Params::new());
    assert_eq!(r.url, url("/forex/symbols"));
    assert!(!r.url.contains('?'));
}

#[test]
fn generic_candle_requests() {
    let candle: datamaxi::candle::Candle = Datamaxi::new("k".to_string());
    assert_eq!(candle.exchanges("futures").url, url("/candle/exchanges?market=futures"));
    assert_eq!(candle.symbols("binance", "futures").url, url("/candle/symbols?exchange=binance&market=futures"));
    assert_eq!(candle.intervals("binance", "futures").url, url("/candle/intervals?exchange=binance&market=futures"));
    assert_eq!(
        candle.get("ETH-USDT", "binance", "spot", "1d").url,
        url("/candle?exchange=binance&interval=1d&market=spot&symbol=ETH-USDT")
    );
}
