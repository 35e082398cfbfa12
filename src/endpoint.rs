use vstd::prelude::*;

verus! {

/// Every operation of the API, one variant per URL path.
#[derive(Clone, Copy, Debug, PartialEq, Eq, Structural)]
pub enum Endpoint {
    Candle,
    CandleExchanges,
    CandleSymbols,
    CandleIntervals,
    CexCandle,
    CexCandleExchanges,
    CexCandleSymbols,
    CexCandleIntervals,
    DexCandle,
    DexTrade,
    DexPools,
    DexChains,
    DexExchanges,
    DexIntervals,
    FundingRateExchanges,
    FundingRateSymbols,
    FundingRateHistorical,
    FundingRateLatest,
    ForexSymbols,
    Forex,
    GoogleTrendKeywords,
    GoogleTrend,
    NaverTrendSymbols,
    NaverTrend,
}

/// The fixed path table: the path, relative to the base URL, of each operation.
pub open spec fn endpoint_path(e: Endpoint) -> Seq<char> {
    match e {
        Endpoint::Candle => "/candle"@,
        Endpoint::CandleExchanges => "/candle/exchanges"@,
        Endpoint::CandleSymbols => "/candle/symbols"@,
        Endpoint::CandleIntervals => "/candle/intervals"@,
        Endpoint::CexCandle => "/cex/candle"@,
        Endpoint::CexCandleExchanges => "/cex/candle/exchanges"@,
        Endpoint::CexCandleSymbols => "/cex/candle/symbols"@,
        Endpoint::CexCandleIntervals => "/cex/candle/intervals"@,
        Endpoint::DexCandle => "/dex/candle"@,
        Endpoint::DexTrade => "/dex/trade"@,
        Endpoint::DexPools => "/dex/pools"@,
        Endpoint::DexChains => "/dex/chains"@,
        Endpoint::DexExchanges => "/dex/exchanges"@,
        Endpoint::DexIntervals => "/dex/intervals"@,
        Endpoint::FundingRateExchanges => "/funding-rate/exchanges"@,
        Endpoint::FundingRateSymbols => "/funding-rate/symbols"@,
        Endpoint::FundingRateHistorical => "/funding-rate"@,
        Endpoint::FundingRateLatest => "/funding-rate/latest"@,
        Endpoint::ForexSymbols => "/forex/symbols"@,
        Endpoint::Forex => "/forex"@,
        Endpoint::GoogleTrendKeywords => "/google/keywords"@,
        Endpoint::GoogleTrend => "/google/trend"@,
        Endpoint::NaverTrendSymbols => "/naver/symbols"@,
        Endpoint::NaverTrend => "/naver/trend"@,
    }
}

impl Endpoint {
    /// The path of this operation, as the table gives it.
    pub fn path(&self) -> (r: &'static str)
        ensures
            r@ == endpoint_path(*self),
    {
        match self {
            Endpoint::Candle => "/candle",
            Endpoint::CandleExchanges => "/candle/exchanges",
            Endpoint::CandleSymbols => "/candle/symbols",
            Endpoint::CandleIntervals => "/candle/intervals",
            Endpoint::CexCandle => "/cex/candle",
            Endpoint::CexCandleExchanges => "/cex/candle/exchanges",
            Endpoint::CexCandleSymbols => "/cex/candle/symbols",
            Endpoint::CexCandleIntervals => "/cex/candle/intervals",
            Endpoint::DexCandle => "/dex/candle",
            Endpoint::DexTrade => "/dex/trade",
            Endpoint::DexPools => "/dex/pools",
            Endpoint::DexChains => "/dex/chains",
            Endpoint::DexExchanges => "/dex/exchanges",
            Endpoint::DexIntervals => "/dex/intervals",
            Endpoint::FundingRateExchanges => "/funding-rate/exchanges",
            Endpoint::FundingRateSymbols => "/funding-rate/symbols",
            Endpoint::FundingRateHistorical => "/funding-rate",
            Endpoint::FundingRateLatest => "/funding-rate/latest",
            Endpoint::ForexSymbols => "/forex/symbols",
            Endpoint::Forex => "/forex",
            Endpoint::GoogleTrendKeywords => "/google/keywords",
            Endpoint::GoogleTrend => "/google/trend",
            Endpoint::NaverTrendSymbols => "/naver/symbols",
            Endpoint::NaverTrend => "/naver/trend",
        }
    }
}

} // verus!
