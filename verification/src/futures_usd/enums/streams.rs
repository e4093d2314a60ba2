//! The streams of the feed and their names.
//!
//! A stream is asked for by name. The name is made of the symbol in lower
//! case, the kind of the stream and its parameters; a parameter that has the
//! value at which the feed sends anyway is left out.

use crate::futures_usd::enums::binance::BookDepthUpdateSpeed;
use crate::futures_usd::enums::binance::KlineContractType;
use crate::futures_usd::enums::binance::KlineInterval;
use crate::futures_usd::enums::binance::MarkPriceUpdateSpeed;
use crate::futures_usd::enums::binance::PartialBookDepthLevel;
use crate::text::lowercase;
use crate::text::lowercase_of;
use vstd::prelude::*;
use vstd::string::StringExecFns;

verus! {

/// A stream of the feed. Each variant holds the name by which the feed knows
/// the stream.
#[derive(Debug, Clone, PartialEq, Eq)]
pub enum Streams {
    BookTicker(String),
    BookTickers(String),
    AggTrade(String),
    MarkPriceUpdate(String),
    MarkPriceUpdates(String),
    Kline(String),
    ContinuousKline(String),
    MiniTicker(String),
    MiniTickers(String),
    Ticker(String),
    Tickers(String),
    ForceOrder(String),
    ForceOrders(String),
    PartialBookDepth(String),
    BookDepth(String),
    CompositeIndex(String),
    ContractInfo(String),
    AssetIndexUpdate(String),
    AssetIndexUpdates(String),
}

/// The part of a stream name that names a mark price speed: nothing for
/// the speed at which the feed sends anyway.
pub open spec fn mark_price_speed_suffix(update_speed: MarkPriceUpdateSpeed) -> Seq<char> {
    if update_speed == MarkPriceUpdateSpeed::Seconds3 {
        Seq::empty()
    } else {
        "@"@ + update_speed.text()
    }
}

/// The part of a stream name that names a book depth speed: nothing for
/// the speed at which the feed sends anyway.
pub open spec fn book_depth_speed_suffix(update_speed: BookDepthUpdateSpeed) -> Seq<char> {
    if update_speed == BookDepthUpdateSpeed::Millis250 {
        Seq::empty()
    } else {
        "@"@ + update_speed.text()
    }
}

impl Streams {
    /// The name of the stream.
    pub open spec fn name(self) -> Seq<char> {
        match self {
            Streams::BookTicker(name) => name@,
            Streams::BookTickers(name) => name@,
            Streams::AggTrade(name) => name@,
            Streams::MarkPriceUpdate(name) => name@,
            Streams::MarkPriceUpdates(name) => name@,
            Streams::Kline(name) => name@,
            Streams::ContinuousKline(name) => name@,
            Streams::MiniTicker(name) => name@,
            Streams::MiniTickers(name) => name@,
            Streams::Ticker(name) => name@,
            Streams::Tickers(name) => name@,
            Streams::ForceOrder(name) => name@,
            Streams::ForceOrders(name) => name@,
            Streams::PartialBookDepth(name) => name@,
            Streams::BookDepth(name) => name@,
            Streams::CompositeIndex(name) => name@,
            Streams::ContractInfo(name) => name@,
            Streams::AssetIndexUpdate(name) => name@,
            Streams::AssetIndexUpdates(name) => name@,
        }
    }

    /// The name of the stream that [`Streams::book_ticker`] makes.
    pub open spec fn book_ticker_name(symbol: Seq<char>) -> Seq<char> {
        lowercase_of(symbol) + "@bookTicker"@
    }

    /// The best bid and ask of a symbol.
    pub fn book_ticker(symbol: &str) -> (stream: Streams)
        ensures
            stream is BookTicker,
            stream.name() == Streams::book_ticker_name(symbol@),
    {
        let mut name = lowercase(symbol);
        name.append("@bookTicker");
        Streams::BookTicker(name)
    }

    /// The name of the stream that [`Streams::book_tickers`] makes.
    pub open spec fn book_tickers_name() -> Seq<char> {
        "!bookTicker"@
    }

    /// The best bid and ask of every symbol.
    pub fn book_tickers() -> (stream: Streams)
        ensures
            stream is BookTickers,
            stream.name() == Streams::book_tickers_name(),
    {
        let name = String::from_str("!bookTicker");
        Streams::BookTickers(name)
    }

    /// The name of the stream that [`Streams::agg_trade`] makes.
    pub open spec fn agg_trade_name(symbol: Seq<char>) -> Seq<char> {
        lowercase_of(symbol) + "@aggTrade"@
    }

    /// The aggregated trades of a symbol.
    pub fn agg_trade(symbol: &str) -> (stream: Streams)
        ensures
            stream is AggTrade,
            stream.name() == Streams::agg_trade_name(symbol@),
    {
        let mut name = lowercase(symbol);
        name.append("@aggTrade");
        Streams::AggTrade(name)
    }

    /// The name of the stream that [`Streams::mark_price_update`] makes.
    pub open spec fn mark_price_update_name(
        symbol: Seq<char>,
        update_speed: MarkPriceUpdateSpeed,
    ) -> Seq<char> {
        lowercase_of(symbol) + "@markPrice"@ + mark_price_speed_suffix(update_speed)
    }

    /// The mark price of a symbol. The speed is named only where it is not
    /// the three seconds at which the feed sends anyway.
    pub fn mark_price_update(
        symbol: &str,
        update_speed: MarkPriceUpdateSpeed,
    ) -> (stream: Streams)
        ensures
            stream is MarkPriceUpdate,
            stream.name() == Streams::mark_price_update_name(symbol@, update_speed),
    {
        let mut name = lowercase(symbol);
        name.append("@markPrice");
        if update_speed != MarkPriceUpdateSpeed::Seconds3 {
            name.append("@");
            name.append(update_speed.to_str());
        }
        Streams::MarkPriceUpdate(name)
    }

    /// The name of the stream that [`Streams::mark_price_updates`] makes.
    pub open spec fn mark_price_updates_name(update_speed: MarkPriceUpdateSpeed) -> Seq<char> {
        "!markPrice@arr"@ + mark_price_speed_suffix(update_speed)
    }

    /// The mark price of every symbol. The speed is named only where it is
    /// not the three seconds at which the feed sends anyway.
    pub fn mark_price_updates(update_speed: MarkPriceUpdateSpeed) -> (stream: Streams)
        ensures
            stream is MarkPriceUpdates,
            stream.name() == Streams::mark_price_updates_name(update_speed),
    {
        let mut name = String::from_str("!markPrice@arr");
        if update_speed != MarkPriceUpdateSpeed::Seconds3 {
            name.append("@");
            name.append(update_speed.to_str());
        }
        Streams::MarkPriceUpdates(name)
    }

    /// The name of the stream that [`Streams::kline`] makes.
    pub open spec fn kline_name(symbol: Seq<char>, kline_interval: KlineInterval) -> Seq<char> {
        lowercase_of(symbol) + "@kline_"@ + kline_interval.text()
    }

    /// The candles of a symbol.
    pub fn kline(symbol: &str, kline_interval: KlineInterval) -> (stream: Streams)
        ensures
            stream is Kline,
            stream.name() == Streams::kline_name(symbol@, kline_interval),
    {
        let mut name = lowercase(symbol);
        name.append("@kline_");
        name.append(kline_interval.to_str());
        Streams::Kline(name)
    }

    /// The name of the stream that [`Streams::continuous_kline`] makes.
    pub open spec fn continuous_kline_name(
        symbol: Seq<char>,
        kline_contract_type: KlineContractType,
        kline_interval: KlineInterval,
    ) -> Seq<char> {
        lowercase_of(symbol)
            + "_"@
            + kline_contract_type.text()
            + "@continuousKline_"@
            + kline_interval.text()
    }

    /// The candles of a continuous contract of a pair.
    pub fn continuous_kline(
        symbol: &str,
        kline_contract_type: KlineContractType,
        kline_interval: KlineInterval,
    ) -> (stream: Streams)
        ensures
            stream is ContinuousKline,
            stream.name() == Streams::continuous_kline_name(
                symbol@,
                kline_contract_type,
                kline_interval,
            ),
    {
        let mut name = lowercase(symbol);
        name.append("_");
        name.append(kline_contract_type.to_str());
        name.append("@continuousKline_");
        name.append(kline_interval.to_str());
        Streams::ContinuousKline(name)
    }

    /// The name of the stream that [`Streams::mini_ticker`] makes.
    pub open spec fn mini_ticker_name(symbol: Seq<char>) -> Seq<char> {
        lowercase_of(symbol) + "@miniTicker"@
    }

    /// The short day statistics of a symbol.
    pub fn mini_ticker(symbol: &str) -> (stream: Streams)
        ensures
            stream is MiniTicker,
            stream.name() == Streams::mini_ticker_name(symbol@),
    {
        let mut name = lowercase(symbol);
        name.append("@miniTicker");
        Streams::MiniTicker(name)
    }

    /// The name of the stream that [`Streams::mini_tickers`] makes.
    pub open spec fn mini_tickers_name() -> Seq<char> {
        "!miniTicker@arr"@
    }

    /// The short day statistics of every symbol.
    pub fn mini_tickers() -> (stream: Streams)
        ensures
            stream is MiniTickers,
            stream.name() == Streams::mini_tickers_name(),
    {
        let name = String::from_str("!miniTicker@arr");
        Streams::MiniTickers(name)
    }

    /// The name of the stream that [`Streams::ticker`] makes.
    pub open spec fn ticker_name(symbol: Seq<char>) -> Seq<char> {
        lowercase_of(symbol) + "@ticker"@
    }

    /// The day statistics of a symbol.
    pub fn ticker(symbol: &str) -> (stream: Streams)
        ensures
            stream is Ticker,
            stream.name() == Streams::ticker_name(symbol@),
    {
        let mut name = lowercase(symbol);
        name.append("@ticker");
        Streams::Ticker(name)
    }

    /// The name of the stream that [`Streams::tickers`] makes.
    pub open spec fn tickers_name() -> Seq<char> {
        "!ticker@arr"@
    }

    /// The day statistics of every symbol.
    pub fn tickers() -> (stream: Streams)
        ensures
            stream is Tickers,
            stream.name() == Streams::tickers_name(),
    {
        let name = String::from_str("!ticker@arr");
        Streams::Tickers(name)
    }

    /// The name of the stream that [`Streams::force_order`] makes.
    pub open spec fn force_order_name(symbol: Seq<char>) -> Seq<char> {
        lowercase_of(symbol) + "@forceOrder"@
    }

    /// The liquidations of a symbol.
    pub fn force_order(symbol: &str) -> (stream: Streams)
        ensures
            stream is ForceOrder,
            stream.name() == Streams::force_order_name(symbol@),
    {
        let mut name = lowercase(symbol);
        name.append("@forceOrder");
        Streams::ForceOrder(name)
    }

    /// The name of the stream that [`Streams::force_orders`] makes.
    pub open spec fn force_orders_name() -> Seq<char> {
        "!forceOrder@arr"@
    }

    /// The liquidations of every symbol.
    pub fn force_orders() -> (stream: Streams)
        ensures
            stream is ForceOrders,
            stream.name() == Streams::force_orders_name(),
    {
        let name = String::from_str("!forceOrder@arr");
        Streams::ForceOrders(name)
    }

    /// The name of the stream that [`Streams::partial_book_depth`] makes.
    pub open spec fn partial_book_depth_name(
        symbol: Seq<char>,
        book_depth_level: PartialBookDepthLevel,
        book_depth_update_speed: BookDepthUpdateSpeed,
    ) -> Seq<char> {
        lowercase_of(symbol)
            + "@depth"@
            + book_depth_level.text()
            + book_depth_speed_suffix(book_depth_update_speed)
    }

    /// The top levels of the book of a symbol. The speed is named only
    /// where it is not the 250 milliseconds at which the feed sends anyway.
    pub fn partial_book_depth(
        symbol: &str,
        book_depth_level: PartialBookDepthLevel,
        book_depth_update_speed: BookDepthUpdateSpeed,
    ) -> (stream: Streams)
        ensures
            stream is PartialBookDepth,
            stream.name() == Streams::partial_book_depth_name(
                symbol@,
                book_depth_level,
                book_depth_update_speed,
            ),
    {
        let mut name = lowercase(symbol);
        name.append("@depth");
        name.append(book_depth_level.to_str());
        if book_depth_update_speed != BookDepthUpdateSpeed::Millis250 {
            name.append("@");
            name.append(book_depth_update_speed.to_str());
        }
        Streams::PartialBookDepth(name)
    }

    /// The name of the stream that [`Streams::book_depth`] makes.
    pub open spec fn book_depth_name(
        symbol: Seq<char>,
        book_depth_update_speed: BookDepthUpdateSpeed,
    ) -> Seq<char> {
        lowercase_of(symbol) + "@depth"@ + book_depth_speed_suffix(book_depth_update_speed)
    }

    /// The changes to the book of a symbol. The speed is named only where
    /// it is not the 250 milliseconds at which the feed sends anyway.
    pub fn book_depth(
        symbol: &str,
        book_depth_update_speed: BookDepthUpdateSpeed,
    ) -> (stream: Streams)
        ensures
            stream is BookDepth,
            stream.name() == Streams::book_depth_name(symbol@, book_depth_update_speed),
    {
        let mut name = lowercase(symbol);
        name.append("@depth");
        if book_depth_update_speed != BookDepthUpdateSpeed::Millis250 {
            name.append("@");
            name.append(book_depth_update_speed.to_str());
        }
        Streams::BookDepth(name)
    }

    /// The name of the stream that [`Streams::composite_index`] makes.
    pub open spec fn composite_index_name(symbol: Seq<char>) -> Seq<char> {
        lowercase_of(symbol) + "@compositeIndex"@
    }

    /// The composite index of a symbol.
    pub fn composite_index(symbol: &str) -> (stream: Streams)
        ensures
            stream is CompositeIndex,
            stream.name() == Streams::composite_index_name(symbol@),
    {
        let mut name = lowercase(symbol);
        name.append("@compositeIndex");
        Streams::CompositeIndex(name)
    }

    /// The name of the stream that [`Streams::contract_info`] makes.
    pub open spec fn contract_info_name() -> Seq<char> {
        "!contractInfo"@
    }

    /// The terms of every contract.
    pub fn contract_info() -> (stream: Streams)
        ensures
            stream is ContractInfo,
            stream.name() == Streams::contract_info_name(),
    {
        let name = String::from_str("!contractInfo");
        Streams::ContractInfo(name)
    }

    /// The name of the stream that [`Streams::asset_index_update`] makes.
    pub open spec fn asset_index_update_name(symbol: Seq<char>) -> Seq<char> {
        lowercase_of(symbol) + "@assetIndex"@
    }

    /// The index of an asset.
    pub fn asset_index_update(symbol: &str) -> (stream: Streams)
        ensures
            stream is AssetIndexUpdate,
            stream.name() == Streams::asset_index_update_name(symbol@),
    {
        let mut name = lowercase(symbol);
        name.append("@assetIndex");
        Streams::AssetIndexUpdate(name)
    }

    /// The name of the stream that [`Streams::asset_index_updates`] makes.
    pub open spec fn asset_index_updates_name() -> Seq<char> {
        "!assetIndex@arr"@
    }

    /// The index of every asset.
    pub fn asset_index_updates() -> (stream: Streams)
        ensures
            stream is AssetIndexUpdates,
            stream.name() == Streams::asset_index_updates_name(),
    {
        let name = String::from_str("!assetIndex@arr");
        Streams::AssetIndexUpdates(name)
    }

    /// Only the symbol in lower case goes into a name: two symbols with the
    /// same lower case name the same streams.
    pub proof fn names_follow_the_lowered_symbol(
        one: Seq<char>,
        other: Seq<char>,
        mark_price_speed: MarkPriceUpdateSpeed,
        interval: KlineInterval,
        contract_type: KlineContractType,
        level: PartialBookDepthLevel,
        depth_speed: BookDepthUpdateSpeed,
    )
        requires
            lowercase_of(one) == lowercase_of(other),
        ensures
            Streams::book_ticker_name(one) == Streams::book_ticker_name(other),
            Streams::agg_trade_name(one) == Streams::agg_trade_name(other),
            Streams::mark_price_update_name(one, mark_price_speed)
                == Streams::mark_price_update_name(other, mark_price_speed),
            Streams::kline_name(one, interval) == Streams::kline_name(other, interval),
            Streams::continuous_kline_name(one, contract_type, interval)
                == Streams::continuous_kline_name(other, contract_type, interval),
            Streams::mini_ticker_name(one) == Streams::mini_ticker_name(other),
            Streams::ticker_name(one) == Streams::ticker_name(other),
            Streams::force_order_name(one) == Streams::force_order_name(other),
            Streams::partial_book_depth_name(one, level, depth_speed)
                == Streams::partial_book_depth_name(other, level, depth_speed),
            Streams::book_depth_name(one, depth_speed)
                == Streams::book_depth_name(other, depth_speed),
            Streams::composite_index_name(one) == Streams::composite_index_name(other),
            Streams::asset_index_update_name(one) == Streams::asset_index_update_name(other),
    {
    }

    /// A speed at which the feed sends anyway is left out of the name.
    pub proof fn default_speeds_are_left_out(symbol: Seq<char>, level: PartialBookDepthLevel)
        ensures
            Streams::mark_price_update_name(symbol, MarkPriceUpdateSpeed::Seconds3)
                == lowercase_of(symbol) + "@markPrice"@,
            Streams::mark_price_updates_name(MarkPriceUpdateSpeed::Seconds3) == "!markPrice@arr"@,
            Streams::book_depth_name(symbol, BookDepthUpdateSpeed::Millis250)
                == lowercase_of(symbol) + "@depth"@,
            Streams::partial_book_depth_name(symbol, level, BookDepthUpdateSpeed::Millis250)
                == lowercase_of(symbol) + "@depth"@ + level.text(),
    {
    }

    /// The name of the stream.
    pub fn to_str(&self) -> (name: &str)
        ensures
            name@ == self.name(),
    {
        match self {
            Streams::BookTicker(stream) => stream.as_str(),
            Streams::BookTickers(stream) => stream.as_str(),
            Streams::AggTrade(stream) => stream.as_str(),
            Streams::MarkPriceUpdate(stream) => stream.as_str(),
            Streams::MarkPriceUpdates(stream) => stream.as_str(),
            Streams::Kline(stream) => stream.as_str(),
            Streams::ContinuousKline(stream) => stream.as_str(),
            Streams::MiniTicker(stream) => stream.as_str(),
            Streams::MiniTickers(stream) => stream.as_str(),
            Streams::Ticker(stream) => stream.as_str(),
            Streams::Tickers(stream) => stream.as_str(),
            Streams::ForceOrder(stream) => stream.as_str(),
            Streams::ForceOrders(stream) => stream.as_str(),
            Streams::PartialBookDepth(stream) => stream.as_str(),
            Streams::BookDepth(stream) => stream.as_str(),
            Streams::CompositeIndex(stream) => stream.as_str(),
            Streams::ContractInfo(stream) => stream.as_str(),
            Streams::AssetIndexUpdate(stream) => stream.as_str(),
            Streams::AssetIndexUpdates(stream) => stream.as_str(),
        }
    }
}

} // verus!
