use datamaxi::models::{CandleOptions, PoolsOptions, SymbolsOptions, TradeOptions};

#[test]
fn trade_options_defaults() {
    let o = TradeOptions::new();
    assert_eq!(o.page, Some(1));
    assert_eq!(o.limit, Some(1000));
    assert_eq!(o.sort, Some("desc".to_string()));
    assert_eq!(o.from, None);
    assert_eq!(o.to, None);
    let d = TradeOptions::default();
    assert_eq!((d.page, d.limit, d.sort), (Some(1), Some(1000), Some("desc".to_string())));
}

#[test]
fn trade_options_setters() {
    let o = TradeOptions::new().page(3).limit(50).from("a").to("b").sort("asc");
    assert_eq!(o.page, Some(3));
    assert_eq!(o.limit, Some(50));
    assert_eq!(o.from, Some("a".to_string()));
    assert_eq!(o.to, Some("b".to_string()));
    assert_eq!(o.sort, Some("asc".to_string()));
}

#[test]
fn candle_options_start_empty() {
    let o = CandleOptions::new();
    assert!(o.market.is_none() && o.interval.is_none() && o.page.is_none() && o.limit.is_none());
    assert!(o.from.is_none() && o.to.is_none() && o.sort.is_none() && o.currency.is_none());
    let o = CandleOptions::default().interval("1m").from("f").to("t");
    assert_eq!(o.interval, Some("1m".to_string()));
    assert_eq!(o.from, Some("f".to_string()));
    assert_eq!(o.to, Some("t".to_string()));
    assert!(o.market.is_none());
}

#[test]
fn symbols_and_pools_options() {
    assert!(SymbolsOptions::new().market.is_none());
    assert_eq!(SymbolsOptions::default().market("spot").market, Some("spot".to_string()));
    let p = PoolsOptions::new();
    assert!(p.chain.is_none() && p.exchange.is_none());
    let p = PoolsOptions::default().chain("c").exchange("e");
    assert_eq!(p.chain, Some("c".to_string()));
    assert_eq!(p.exchange, Some("e".to_string()));
}
