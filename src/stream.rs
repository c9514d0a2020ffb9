//! Names of the venue's push streams.

use crate::json::decimal;
use crate::json::push_decimal;
use vstd::prelude::*;

verus! {

/// The characters of `s` in lower case, as the standard library folds them.
pub uninterp spec fn lower_of(s: Seq<char>) -> Seq<char>;

/// Relies on `str::to_lowercase`: the folded text depends on the
/// characters alone.
#[verifier::external_body]
pub(crate) fn lowercase(s: &str) -> (r: String)
    ensures
        r@ == lower_of(s@),
{
    s.to_lowercase()
}

/// The width of one candle of a kline stream.
#[derive(Clone, Copy, Debug, PartialEq, Eq, Structural)]
pub enum ChartInterval {
    OneMinute,
    ThreeMinute,
    FiveMinute,
    FifteenMinute,
    ThirtyMinute,
    OneHour,
    TwoHour,
    FourHour,
    SixHour,
    EightHour,
    TwelveHour,
    OneDay,
    ThreeDay,
    OneWeek,
    OneMonth,
}

impl ChartInterval {
    /// How the venue writes the interval.
    pub open spec fn spec_text(self) -> Seq<char> {
        match self {
            ChartInterval::OneMinute => "1m"@,
            ChartInterval::ThreeMinute => "3m"@,
            ChartInterval::FiveMinute => "5m"@,
            ChartInterval::FifteenMinute => "15m"@,
            ChartInterval::ThirtyMinute => "30m"@,
            ChartInterval::OneHour => "1h"@,
            ChartInterval::TwoHour => "2h"@,
            ChartInterval::FourHour => "4h"@,
            ChartInterval::SixHour => "6h"@,
            ChartInterval::EightHour => "8h"@,
            ChartInterval::TwelveHour => "12h"@,
            ChartInterval::OneDay => "1d"@,
            ChartInterval::ThreeDay => "3d"@,
            ChartInterval::OneWeek => "1w"@,
            ChartInterval::OneMonth => "1M"@,
        }
    }

    pub fn text(&self) -> (r: &'static str)
        ensures
            r@ == self.spec_text(),
    {
        match self {
            ChartInterval::OneMinute => "1m",
            ChartInterval::ThreeMinute => "3m",
            ChartInterval::FiveMinute => "5m",
            ChartInterval::FifteenMinute => "15m",
            ChartInterval::ThirtyMinute => "30m",
            ChartInterval::OneHour => "1h",
            ChartInterval::TwoHour => "2h",
            ChartInterval::FourHour => "4h",
            ChartInterval::SixHour => "6h",
            ChartInterval::EightHour => "8h",
            ChartInterval::TwelveHour => "12h",
            ChartInterval::OneDay => "1d",
            ChartInterval::ThreeDay => "3d",
            ChartInterval::OneWeek => "1w",
            ChartInterval::OneMonth => "1M",
        }
    }
}

/// A push stream of the venue; symbols are given in any case.
#[derive(Clone, Debug)]
pub enum WSStream {
    AggTrade(String),
    AllBookTicker,
    AllForceLiquidationOrder,
    AllMarkPrice,
    AllMarkPriceOneSec,
    AllMiniTicker,
    AllTicker,
    BookDepth(String),
    BookDepth500ms(String),
    BookDepth100ms(String),
    BookDepthRealTime(String),
    BookTicker(String),
    ForceLiquidationOrder(String),
    Kline(String, ChartInterval),
    MarkPrice(String),
    MarkPriceOneSec(String),
    MiniTicker(String),
    PartialBookDepth(String, u8),
    PartialBookDepth500ms(String, u8),
    PartialBookDepth100ms(String, u8),
    Ticker(String),
    UserData(String),
}

impl WSStream {
    /// The stream's name on the wire.
    pub open spec fn spec_name(&self) -> Seq<char> {
        match self {
            WSStream::AggTrade(symbol) => lower_of(symbol@) + "@aggTrade"@,
            WSStream::AllBookTicker => "!bookTicker"@,
            WSStream::AllForceLiquidationOrder => "!forceOrder@arr"@,
            WSStream::AllMarkPrice => "!markPrice@arr"@,
            WSStream::AllMarkPriceOneSec => "!markPrice@arr@1s"@,
            WSStream::AllMiniTicker => "!miniTicker@arr"@,
            WSStream::AllTicker => "!ticker@arr"@,
            WSStream::BookDepth(symbol) => lower_of(symbol@) + "@depth"@,
            WSStream::BookDepth500ms(symbol) => lower_of(symbol@) + "@depth@500ms"@,
            WSStream::BookDepth100ms(symbol) => lower_of(symbol@) + "@depth@100ms"@,
            WSStream::BookDepthRealTime(symbol) => lower_of(symbol@) + "@depth@0ms"@,
            WSStream::BookTicker(symbol) => lower_of(symbol@) + "@bookTicker"@,
            WSStream::ForceLiquidationOrder(symbol) => lower_of(symbol@) + "@forceOrder"@,
            WSStream::Kline(symbol, interval) => lower_of(symbol@) + "@kline_"@ + interval.spec_text(),
            WSStream::MarkPrice(symbol) => lower_of(symbol@) + "@markPrice"@,
            WSStream::MarkPriceOneSec(symbol) => lower_of(symbol@) + "@markPrice@1s"@,
            WSStream::MiniTicker(symbol) => lower_of(symbol@) + "@miniTicker"@,
            WSStream::PartialBookDepth(symbol, levels) => lower_of(symbol@) + "@depth"@ + decimal(*levels as nat),
            WSStream::PartialBookDepth500ms(symbol, levels) => lower_of(symbol@) + "@depth"@ + decimal(*levels as nat) + "@500ms"@,
            WSStream::PartialBookDepth100ms(symbol, levels) => lower_of(symbol@) + "@depth"@ + decimal(*levels as nat) + "@100ms"@,
            WSStream::Ticker(symbol) => lower_of(symbol@) + "@ticker"@,
            WSStream::UserData(key) => key@,
        }
    }

    pub fn name(&self) -> (r: String)
        ensures
            r@ == self.spec_name(),
    {
        match self {
            WSStream::AggTrade(symbol) => {
                let mut r = lowercase(symbol.as_str());
                r.append("@aggTrade");
                r
            },
            WSStream::AllBookTicker => String::from_str("!bookTicker"),
            WSStream::AllForceLiquidationOrder => String::from_str("!forceOrder@arr"),
            WSStream::AllMarkPrice => String::from_str("!markPrice@arr"),
            WSStream::AllMarkPriceOneSec => String::from_str("!markPrice@arr@1s"),
            WSStream::AllMiniTicker => String::from_str("!miniTicker@arr"),
            WSStream::AllTicker => String::from_str("!ticker@arr"),
            WSStream::BookDepth(symbol) => {
                let mut r = lowercase(symbol.as_str());
                r.append("@depth");
                r
            },
            WSStream::BookDepth500ms(symbol) => {
                let mut r = lowercase(symbol.as_str());
                r.append("@depth@500ms");
                r
            },
            WSStream::BookDepth100ms(symbol) => {
                let mut r = lowercase(symbol.as_str());
                r.append("@depth@100ms");
                r
            },
            WSStream::BookDepthRealTime(symbol) => {
                let mut r = lowercase(symbol.as_str());
                r.append("@depth@0ms");
                r
            },
            WSStream::BookTicker(symbol) => {
                let mut r = lowercase(symbol.as_str());
                r.append("@bookTicker");
                r
            },
            WSStream::ForceLiquidationOrder(symbol) => {
                let mut r = lowercase(symbol.as_str());
                r.append("@forceOrder");
                r
            },
            WSStream::Kline(symbol, interval) => {
                let mut r = lowercase(symbol.as_str());
                r.append("@kline_");
                r.append(interval.text());
                r
            },
            WSStream::MarkPrice(symbol) => {
                let mut r = lowercase(symbol.as_str());
                r.append("@markPrice");
                r
            },
            WSStream::MarkPriceOneSec(symbol) => {
                let mut r = lowercase(symbol.as_str());
                r.append("@markPrice@1s");
                r
            },
            WSStream::MiniTicker(symbol) => {
                let mut r = lowercase(symbol.as_str());
                r.append("@miniTicker");
                r
            },
            WSStream::PartialBookDepth(symbol, levels) => {
                let mut r = lowercase(symbol.as_str());
                r.append("@depth");
                push_decimal(&mut r, *levels as u64);
                r
            },
            WSStream::PartialBookDepth500ms(symbol, levels) => {
                let mut r = lowercase(symbol.as_str());
                r.append("@depth");
                push_decimal(&mut r, *levels as u64);
                r.append("@500ms");
                r
            },
            WSStream::PartialBookDepth100ms(symbol, levels) => {
                let mut r = lowercase(symbol.as_str());
                r.append("@depth");
                push_decimal(&mut r, *levels as u64);
                r.append("@100ms");
                r
            },
            WSStream::Ticker(symbol) => {
                let mut r = lowercase(symbol.as_str());
                r.append("@ticker");
                r
            },
            WSStream::UserData(key) => key.clone(),
        }
    }
}

} // verus!
