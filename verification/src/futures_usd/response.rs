//! The records that the feed sends, and how each is read from a JSON
//! document.
//!
//! A record is read from a JSON object. Members that the record does not name
//! are passed over. A decimal number comes as a JSON string and is kept as a
//! [`Decimal`].

use crate::decimal::Decimal;
use crate::decode::decimal_or_zero;
use crate::decode::flag_or_false;
use crate::decode::has;
use crate::decode::has_or_lacks;
use crate::decode::holds;
use crate::decode::holds_decimal_or_zero;
use crate::decode::holds_flag_or_false;
use crate::decode::holds_optional;
use crate::decode::holds_text_or_empty;
use crate::decode::may_have;
use crate::decode::optional;
use crate::decode::required;
use crate::decode::text_or_empty;
use crate::decode::Decode;
use crate::futures_usd::enums::binance::AccountUpdateReason;
use crate::futures_usd::enums::binance::ContractStatus;
use crate::futures_usd::enums::binance::ContractType;
use crate::futures_usd::enums::binance::ExecutionType;
use crate::futures_usd::enums::binance::KlineContractType;
use crate::futures_usd::enums::binance::KlineInterval;
use crate::futures_usd::enums::binance::MarginType;
use crate::futures_usd::enums::binance::OrderStatus;
use crate::futures_usd::enums::binance::OrderType;
use crate::futures_usd::enums::binance::PositionSide;
use crate::futures_usd::enums::binance::PriceMatch;
use crate::futures_usd::enums::binance::Side;
use crate::futures_usd::enums::binance::StpMode;
use crate::futures_usd::enums::binance::StrategyStatus;
use crate::futures_usd::enums::binance::TimeInForce;
use crate::futures_usd::enums::binance::WorkingType;
use crate::futures_usd::enums::events::EventType;
use crate::json::JsonValue;
use vstd::prelude::*;

verus! {

/// The part of a message that says what it is: its event tag.
#[derive(Debug, Clone, PartialEq)]
pub struct EventTypeWrapper {
    pub event_type: EventType,
}

impl Decode for EventTypeWrapper {
    /// A JSON object with the members of the record, each of its kind.
    open spec fn accepts(document: JsonValue) -> bool {
        &&& has::<EventType>(document, "e"@)
    }

    open spec fn reflects(self, document: JsonValue) -> bool {
        &&& holds(self.event_type, document, "e"@)
    }

    fn decode(document: &JsonValue) -> (value: Option<Self>) {
        let event_type = required::<EventType>(document, "e")?;
        Some(EventTypeWrapper { event_type })
    }
}

/// The answer of the feed to a request, such as a subscription. Its result
/// is opaque and is not kept.
#[derive(Debug, Clone, PartialEq)]
pub struct SubscribeResponse {
    pub id: Option<u64>,
}

impl Decode for SubscribeResponse {
    /// A JSON object whose `id`, where it has one, is a non-negative integer.
    /// Whatever it holds as `result` is passed over.
    open spec fn accepts(document: JsonValue) -> bool {
        &&& document is Object
        &&& may_have::<u64>(document, "id"@)
    }

    open spec fn reflects(self, document: JsonValue) -> bool {
        &&& document is Object
        &&& holds_optional(self.id, document, "id"@)
    }

    fn decode(document: &JsonValue) -> (value: Option<Self>) {
        if !document.is_object() {
            return None;
        }
        let id = optional::<u64>(document, "id")?;
        Some(SubscribeResponse { id })
    }
}

/// The best bid and ask of several symbols, as they came in one message.
#[derive(Debug, Clone, PartialEq)]
pub struct BookTickers {
    pub data: Vec<BookTicker>,
}

impl BookTickers {
    /// Wraps the records of one message, in the order in which they came.
    pub fn new(book_tickers: Vec<BookTicker>) -> (batch: BookTickers)
        ensures
            batch.data == book_tickers,
    {
        Self { data: book_tickers }
    }
}

/// The best bid and ask of a symbol.
#[derive(Debug, Clone, PartialEq)]
pub struct BookTicker {
    pub event_type: EventType,
    pub event_time: u64,
    pub symbol: String,
    pub update_id: u64,
    pub bid_price: Decimal,
    pub bid_quantity: Decimal,
    pub ask_price: Decimal,
    pub ask_quantity: Decimal,
    pub transaction_time: u64,
}

impl Decode for BookTicker {
    /// A JSON object with the members of the record, each of its kind.
    open spec fn accepts(document: JsonValue) -> bool {
        &&& has::<EventType>(document, "e"@)
        &&& has::<u64>(document, "E"@)
        &&& has::<String>(document, "s"@)
        &&& has::<u64>(document, "u"@)
        &&& has::<Decimal>(document, "b"@)
        &&& has::<Decimal>(document, "B"@)
        &&& has::<Decimal>(document, "a"@)
        &&& has::<Decimal>(document, "A"@)
        &&& has::<u64>(document, "T"@)
    }

    open spec fn reflects(self, document: JsonValue) -> bool {
        &&& holds(self.event_type, document, "e"@)
        &&& holds(self.event_time, document, "E"@)
        &&& holds(self.symbol, document, "s"@)
        &&& holds(self.update_id, document, "u"@)
        &&& holds(self.bid_price, document, "b"@)
        &&& holds(self.bid_quantity, document, "B"@)
        &&& holds(self.ask_price, document, "a"@)
        &&& holds(self.ask_quantity, document, "A"@)
        &&& holds(self.transaction_time, document, "T"@)
    }

    fn decode(document: &JsonValue) -> (value: Option<Self>) {
        let event_type = required::<EventType>(document, "e")?;
        let event_time = required::<u64>(document, "E")?;
        let symbol = required::<String>(document, "s")?;
        let update_id = required::<u64>(document, "u")?;
        let bid_price = required::<Decimal>(document, "b")?;
        let bid_quantity = required::<Decimal>(document, "B")?;
        let ask_price = required::<Decimal>(document, "a")?;
        let ask_quantity = required::<Decimal>(document, "A")?;
        let transaction_time = required::<u64>(document, "T")?;
        Some(
            BookTicker {
                event_type,
                event_time,
                symbol,
                update_id,
                bid_price,
                bid_quantity,
                ask_price,
                ask_quantity,
                transaction_time,
            },
        )
    }
}

/// Trades at one price, taken together.
#[derive(Debug, Clone, PartialEq)]
pub struct AggTrade {
    pub event_type: EventType,
    pub event_time: u64,
    pub symbol: String,
    pub agg_trade_id: u64,
    pub price: Decimal,
    pub quantity: Decimal,
    pub first_trade_id: u64,
    pub last_trade_id: u64,
    pub trade_time: u64,
    pub buyer_is_market_maker: bool,
}

impl Decode for AggTrade {
    /// A JSON object with the members of the record, each of its kind.
    open spec fn accepts(document: JsonValue) -> bool {
        &&& has::<EventType>(document, "e"@)
        &&& has::<u64>(document, "E"@)
        &&& has::<String>(document, "s"@)
        &&& has::<u64>(document, "a"@)
        &&& has::<Decimal>(document, "p"@)
        &&& has::<Decimal>(document, "q"@)
        &&& has::<u64>(document, "f"@)
        &&& has::<u64>(document, "l"@)
        &&& has::<u64>(document, "T"@)
        &&& has::<bool>(document, "m"@)
    }

    open spec fn reflects(self, document: JsonValue) -> bool {
        &&& holds(self.event_type, document, "e"@)
        &&& holds(self.event_time, document, "E"@)
        &&& holds(self.symbol, document, "s"@)
        &&& holds(self.agg_trade_id, document, "a"@)
        &&& holds(self.price, document, "p"@)
        &&& holds(self.quantity, document, "q"@)
        &&& holds(self.first_trade_id, document, "f"@)
        &&& holds(self.last_trade_id, document, "l"@)
        &&& holds(self.trade_time, document, "T"@)
        &&& holds(self.buyer_is_market_maker, document, "m"@)
    }

    fn decode(document: &JsonValue) -> (value: Option<Self>) {
        let event_type = required::<EventType>(document, "e")?;
        let event_time = required::<u64>(document, "E")?;
        let symbol = required::<String>(document, "s")?;
        let agg_trade_id = required::<u64>(document, "a")?;
        let price = required::<Decimal>(document, "p")?;
        let quantity = required::<Decimal>(document, "q")?;
        let first_trade_id = required::<u64>(document, "f")?;
        let last_trade_id = required::<u64>(document, "l")?;
        let trade_time = required::<u64>(document, "T")?;
        let buyer_is_market_maker = required::<bool>(document, "m")?;
        Some(
            AggTrade {
                event_type,
                event_time,
                symbol,
                agg_trade_id,
                price,
                quantity,
                first_trade_id,
                last_trade_id,
                trade_time,
                buyer_is_market_maker,
            },
        )
    }
}

/// The mark prices of several symbols, as they came in one message.
#[derive(Debug, Clone, PartialEq)]
pub struct MarkPriceUpdates {
    pub data: Vec<MarkPriceUpdate>,
}

impl MarkPriceUpdates {
    /// Wraps the records of one message, in the order in which they came.
    pub fn new(mark_price_updates: Vec<MarkPriceUpdate>) -> (batch: MarkPriceUpdates)
        ensures
            batch.data == mark_price_updates,
    {
        Self { data: mark_price_updates }
    }
}

/// The mark price and funding rate of a symbol.
#[derive(Debug, Clone, PartialEq)]
pub struct MarkPriceUpdate {
    pub event_type: EventType,
    pub event_time: i64,
    pub symbol: String,
    pub mark_price: Decimal,
    pub index_price: Decimal,
    pub estimated_settle_price: Decimal,
    pub funding_rate: Decimal,
    pub next_funding_time: i64,
}

impl Decode for MarkPriceUpdate {
    /// A JSON object with the members of the record, each of its kind.
    open spec fn accepts(document: JsonValue) -> bool {
        &&& has::<EventType>(document, "e"@)
        &&& has::<i64>(document, "E"@)
        &&& has::<String>(document, "s"@)
        &&& has::<Decimal>(document, "p"@)
        &&& has::<Decimal>(document, "i"@)
        &&& has::<Decimal>(document, "P"@)
        &&& has::<Decimal>(document, "r"@)
        &&& has::<i64>(document, "T"@)
    }

    open spec fn reflects(self, document: JsonValue) -> bool {
        &&& holds(self.event_type, document, "e"@)
        &&& holds(self.event_time, document, "E"@)
        &&& holds(self.symbol, document, "s"@)
        &&& holds(self.mark_price, document, "p"@)
        &&& holds(self.index_price, document, "i"@)
        &&& holds(self.estimated_settle_price, document, "P"@)
        &&& holds(self.funding_rate, document, "r"@)
        &&& holds(self.next_funding_time, document, "T"@)
    }

    fn decode(document: &JsonValue) -> (value: Option<Self>) {
        let event_type = required::<EventType>(document, "e")?;
        let event_time = required::<i64>(document, "E")?;
        let symbol = required::<String>(document, "s")?;
        let mark_price = required::<Decimal>(document, "p")?;
        let index_price = required::<Decimal>(document, "i")?;
        let estimated_settle_price = required::<Decimal>(document, "P")?;
        let funding_rate = required::<Decimal>(document, "r")?;
        let next_funding_time = required::<i64>(document, "T")?;
        Some(
            MarkPriceUpdate {
                event_type,
                event_time,
                symbol,
                mark_price,
                index_price,
                estimated_settle_price,
                funding_rate,
                next_funding_time,
            },
        )
    }
}

/// A candle of a symbol.
#[derive(Debug, Clone, PartialEq)]
pub struct Kline {
    pub event_type: EventType,
    pub event_time: i64,
    pub symbol: String,
    pub kline_data: KlineData,
}

impl Decode for Kline {
    /// A JSON object with the members of the record, each of its kind.
    open spec fn accepts(document: JsonValue) -> bool {
        &&& has::<EventType>(document, "e"@)
        &&& has::<i64>(document, "E"@)
        &&& has::<String>(document, "s"@)
        &&& has::<KlineData>(document, "k"@)
    }

    open spec fn reflects(self, document: JsonValue) -> bool {
        &&& holds(self.event_type, document, "e"@)
        &&& holds(self.event_time, document, "E"@)
        &&& holds(self.symbol, document, "s"@)
        &&& holds(self.kline_data, document, "k"@)
    }

    fn decode(document: &JsonValue) -> (value: Option<Self>) {
        let event_type = required::<EventType>(document, "e")?;
        let event_time = required::<i64>(document, "E")?;
        let symbol = required::<String>(document, "s")?;
        let kline_data = required::<KlineData>(document, "k")?;
        Some(Kline { event_type, event_time, symbol, kline_data })
    }
}

/// A candle of a continuous contract.
#[derive(Debug, Clone, PartialEq)]
pub struct ContinuousKline {
    pub event_type: EventType,
    pub event_time: i64,
    pub pair: String,
    pub contract_type: KlineContractType,
    pub kline_data: KlineData,
}

impl Decode for ContinuousKline {
    /// A JSON object with the members of the record, each of its kind.
    open spec fn accepts(document: JsonValue) -> bool {
        &&& has::<EventType>(document, "e"@)
        &&& has::<i64>(document, "E"@)
        &&& has::<String>(document, "ps"@)
        &&& has::<KlineContractType>(document, "ct"@)
        &&& has::<KlineData>(document, "k"@)
    }

    open spec fn reflects(self, document: JsonValue) -> bool {
        &&& holds(self.event_type, document, "e"@)
        &&& holds(self.event_time, document, "E"@)
        &&& holds(self.pair, document, "ps"@)
        &&& holds(self.contract_type, document, "ct"@)
        &&& holds(self.kline_data, document, "k"@)
    }

    fn decode(document: &JsonValue) -> (value: Option<Self>) {
        let event_type = required::<EventType>(document, "e")?;
        let event_time = required::<i64>(document, "E")?;
        let pair = required::<String>(document, "ps")?;
        let contract_type = required::<KlineContractType>(document, "ct")?;
        let kline_data = required::<KlineData>(document, "k")?;
        Some(ContinuousKline { event_type, event_time, pair, contract_type, kline_data })
    }
}

/// The prices and volumes of one candle.
#[derive(Debug, Clone, PartialEq)]
pub struct KlineData {
    pub kline_start_time: i64,
    pub kline_close_time: i64,
    pub kline_symbol: String,
    pub interval: KlineInterval,
    pub first_trade_id: i64,
    pub last_trade_id: i64,
    pub open_price: Decimal,
    pub close_price: Decimal,
    pub high_price: Decimal,
    pub low_price: Decimal,
    pub base_asset_volume: Decimal,
    pub number_of_trades: i64,
    pub is_kline_closed: bool,
    pub quote_asset_volume: Decimal,
    pub taker_buy_base_asset_volume: Decimal,
    pub taker_buy_quote_asset_volume: Decimal,
}

impl Decode for KlineData {
    /// A JSON object with the members of the record, each of its kind.
    open spec fn accepts(document: JsonValue) -> bool {
        &&& has::<i64>(document, "t"@)
        &&& has::<i64>(document, "T"@)
        &&& has_or_lacks::<String>(document, "s"@)
        &&& has::<KlineInterval>(document, "i"@)
        &&& has::<i64>(document, "f"@)
        &&& has::<i64>(document, "L"@)
        &&& has::<Decimal>(document, "o"@)
        &&& has::<Decimal>(document, "c"@)
        &&& has::<Decimal>(document, "h"@)
        &&& has::<Decimal>(document, "l"@)
        &&& has::<Decimal>(document, "v"@)
        &&& has::<i64>(document, "n"@)
        &&& has::<bool>(document, "x"@)
        &&& has::<Decimal>(document, "q"@)
        &&& has::<Decimal>(document, "V"@)
        &&& has::<Decimal>(document, "Q"@)
    }

    open spec fn reflects(self, document: JsonValue) -> bool {
        &&& holds(self.kline_start_time, document, "t"@)
        &&& holds(self.kline_close_time, document, "T"@)
        &&& holds_text_or_empty(self.kline_symbol, document, "s"@)
        &&& holds(self.interval, document, "i"@)
        &&& holds(self.first_trade_id, document, "f"@)
        &&& holds(self.last_trade_id, document, "L"@)
        &&& holds(self.open_price, document, "o"@)
        &&& holds(self.close_price, document, "c"@)
        &&& holds(self.high_price, document, "h"@)
        &&& holds(self.low_price, document, "l"@)
        &&& holds(self.base_asset_volume, document, "v"@)
        &&& holds(self.number_of_trades, document, "n"@)
        &&& holds(self.is_kline_closed, document, "x"@)
        &&& holds(self.quote_asset_volume, document, "q"@)
        &&& holds(self.taker_buy_base_asset_volume, document, "V"@)
        &&& holds(self.taker_buy_quote_asset_volume, document, "Q"@)
    }

    fn decode(document: &JsonValue) -> (value: Option<Self>) {
        let kline_start_time = required::<i64>(document, "t")?;
        let kline_close_time = required::<i64>(document, "T")?;
        let kline_symbol = text_or_empty(document, "s")?;
        let interval = required::<KlineInterval>(document, "i")?;
        let first_trade_id = required::<i64>(document, "f")?;
        let last_trade_id = required::<i64>(document, "L")?;
        let open_price = required::<Decimal>(document, "o")?;
        let close_price = required::<Decimal>(document, "c")?;
        let high_price = required::<Decimal>(document, "h")?;
        let low_price = required::<Decimal>(document, "l")?;
        let base_asset_volume = required::<Decimal>(document, "v")?;
        let number_of_trades = required::<i64>(document, "n")?;
        let is_kline_closed = required::<bool>(document, "x")?;
        let quote_asset_volume = required::<Decimal>(document, "q")?;
        let taker_buy_base_asset_volume = required::<Decimal>(document, "V")?;
        let taker_buy_quote_asset_volume = required::<Decimal>(document, "Q")?;
        Some(
            KlineData {
                kline_start_time,
                kline_close_time,
                kline_symbol,
                interval,
                first_trade_id,
                last_trade_id,
                open_price,
                close_price,
                high_price,
                low_price,
                base_asset_volume,
                number_of_trades,
                is_kline_closed,
                quote_asset_volume,
                taker_buy_base_asset_volume,
                taker_buy_quote_asset_volume,
            },
        )
    }
}

/// The short day statistics of several symbols, as they came in one
/// message.
#[derive(Debug, Clone, PartialEq)]
pub struct MiniTickers {
    pub data: Vec<MiniTicker>,
}

impl MiniTickers {
    /// Wraps the records of one message, in the order in which they came.
    pub fn new(mini_tickers: Vec<MiniTicker>) -> (batch: MiniTickers)
        ensures
            batch.data == mini_tickers,
    {
        Self { data: mini_tickers }
    }
}

/// The short day statistics of a symbol.
#[derive(Debug, Clone, PartialEq)]
pub struct MiniTicker {
    pub event_type: EventType,
    pub event_time: u64,
    pub symbol: String,
    pub close_price: Decimal,
    pub open_price: Decimal,
    pub high_price: Decimal,
    pub low_price: Decimal,
    pub total_traded_base_asset_volume: Decimal,
    pub total_traded_quote_asset_volume: Decimal,
}

impl Decode for MiniTicker {
    /// A JSON object with the members of the record, each of its kind.
    open spec fn accepts(document: JsonValue) -> bool {
        &&& has::<EventType>(document, "e"@)
        &&& has::<u64>(document, "E"@)
        &&& has::<String>(document, "s"@)
        &&& has::<Decimal>(document, "c"@)
        &&& has::<Decimal>(document, "o"@)
        &&& has::<Decimal>(document, "h"@)
        &&& has::<Decimal>(document, "l"@)
        &&& has::<Decimal>(document, "v"@)
        &&& has::<Decimal>(document, "q"@)
    }

    open spec fn reflects(self, document: JsonValue) -> bool {
        &&& holds(self.event_type, document, "e"@)
        &&& holds(self.event_time, document, "E"@)
        &&& holds(self.symbol, document, "s"@)
        &&& holds(self.close_price, document, "c"@)
        &&& holds(self.open_price, document, "o"@)
        &&& holds(self.high_price, document, "h"@)
        &&& holds(self.low_price, document, "l"@)
        &&& holds(self.total_traded_base_asset_volume, document, "v"@)
        &&& holds(self.total_traded_quote_asset_volume, document, "q"@)
    }

    fn decode(document: &JsonValue) -> (value: Option<Self>) {
        let event_type = required::<EventType>(document, "e")?;
        let event_time = required::<u64>(document, "E")?;
        let symbol = required::<String>(document, "s")?;
        let close_price = required::<Decimal>(document, "c")?;
        let open_price = required::<Decimal>(document, "o")?;
        let high_price = required::<Decimal>(document, "h")?;
        let low_price = required::<Decimal>(document, "l")?;
        let total_traded_base_asset_volume = required::<Decimal>(document, "v")?;
        let total_traded_quote_asset_volume = required::<Decimal>(document, "q")?;
        Some(
            MiniTicker {
                event_type,
                event_time,
                symbol,
                close_price,
                open_price,
                high_price,
                low_price,
                total_traded_base_asset_volume,
                total_traded_quote_asset_volume,
            },
        )
    }
}

/// The day statistics of several symbols, as they came in one message.
#[derive(Debug, Clone, PartialEq)]
pub struct Tickers {
    pub data: Vec<Ticker>,
}

impl Tickers {
    /// Wraps the records of one message, in the order in which they came.
    pub fn new(tickers: Vec<Ticker>) -> (batch: Tickers)
        ensures
            batch.data == tickers,
    {
        Self { data: tickers }
    }
}

/// The day statistics of a symbol.
#[derive(Debug, Clone, PartialEq)]
pub struct Ticker {
    pub event_type: EventType,
    pub event_time: u64,
    pub symbol: String,
    pub price_change: Decimal,
    pub price_change_percent: Decimal,
    pub weighted_avg_price: Decimal,
    pub last_price: Decimal,
    pub last_quantity: Decimal,
    pub open_price: Decimal,
    pub high_price: Decimal,
    pub low_price: Decimal,
    pub total_traded_base_asset_volume: Decimal,
    pub total_traded_quote_asset_volume: Decimal,
    pub statistics_open_time: u64,
    pub statistics_close_time: u64,
    pub first_trade_id: u64,
    pub last_trade_id: u64,
    pub total_number_of_trades: u64,
}

impl Decode for Ticker {
    /// A JSON object with the members of the record, each of its kind.
    open spec fn accepts(document: JsonValue) -> bool {
        &&& has::<EventType>(document, "e"@)
        &&& has::<u64>(document, "E"@)
        &&& has::<String>(document, "s"@)
        &&& has::<Decimal>(document, "p"@)
        &&& has::<Decimal>(document, "P"@)
        &&& has::<Decimal>(document, "w"@)
        &&& has::<Decimal>(document, "c"@)
        &&& has::<Decimal>(document, "Q"@)
        &&& has::<Decimal>(document, "o"@)
        &&& has::<Decimal>(document, "h"@)
        &&& has::<Decimal>(document, "l"@)
        &&& has::<Decimal>(document, "v"@)
        &&& has::<Decimal>(document, "q"@)
        &&& has::<u64>(document, "O"@)
        &&& has::<u64>(document, "C"@)
        &&& has::<u64>(document, "F"@)
        &&& has::<u64>(document, "L"@)
        &&& has::<u64>(document, "n"@)
    }

    open spec fn reflects(self, document: JsonValue) -> bool {
        &&& holds(self.event_type, document, "e"@)
        &&& holds(self.event_time, document, "E"@)
        &&& holds(self.symbol, document, "s"@)
        &&& holds(self.price_change, document, "p"@)
        &&& holds(self.price_change_percent, document, "P"@)
        &&& holds(self.weighted_avg_price, document, "w"@)
        &&& holds(self.last_price, document, "c"@)
        &&& holds(self.last_quantity, document, "Q"@)
        &&& holds(self.open_price, document, "o"@)
        &&& holds(self.high_price, document, "h"@)
        &&& holds(self.low_price, document, "l"@)
        &&& holds(self.total_traded_base_asset_volume, document, "v"@)
        &&& holds(self.total_traded_quote_asset_volume, document, "q"@)
        &&& holds(self.statistics_open_time, document, "O"@)
        &&& holds(self.statistics_close_time, document, "C"@)
        &&& holds(self.first_trade_id, document, "F"@)
        &&& holds(self.last_trade_id, document, "L"@)
        &&& holds(self.total_number_of_trades, document, "n"@)
    }

    fn decode(document: &JsonValue) -> (value: Option<Self>) {
        let event_type = required::<EventType>(document, "e")?;
        let event_time = required::<u64>(document, "E")?;
        let symbol = required::<String>(document, "s")?;
        let price_change = required::<Decimal>(document, "p")?;
        let price_change_percent = required::<Decimal>(document, "P")?;
        let weighted_avg_price = required::<Decimal>(document, "w")?;
        let last_price = required::<Decimal>(document, "c")?;
        let last_quantity = required::<Decimal>(document, "Q")?;
        let open_price = required::<Decimal>(document, "o")?;
        let high_price = required::<Decimal>(document, "h")?;
        let low_price = required::<Decimal>(document, "l")?;
        let total_traded_base_asset_volume = required::<Decimal>(document, "v")?;
        let total_traded_quote_asset_volume = required::<Decimal>(document, "q")?;
        let statistics_open_time = required::<u64>(document, "O")?;
        let statistics_close_time = required::<u64>(document, "C")?;
        let first_trade_id = required::<u64>(document, "F")?;
        let last_trade_id = required::<u64>(document, "L")?;
        let total_number_of_trades = required::<u64>(document, "n")?;
        Some(
            Ticker {
                event_type,
                event_time,
                symbol,
                price_change,
                price_change_percent,
                weighted_avg_price,
                last_price,
                last_quantity,
                open_price,
                high_price,
                low_price,
                total_traded_base_asset_volume,
                total_traded_quote_asset_volume,
                statistics_open_time,
                statistics_close_time,
                first_trade_id,
                last_trade_id,
                total_number_of_trades,
            },
        )
    }
}

/// A liquidation.
#[derive(Debug, Clone, PartialEq)]
pub struct ForceOrder {
    pub event_type: EventType,
    pub event_time: i64,
    pub order: ForceOrderData,
}

impl Decode for ForceOrder {
    /// A JSON object with the members of the record, each of its kind.
    open spec fn accepts(document: JsonValue) -> bool {
        &&& has::<EventType>(document, "e"@)
        &&& has::<i64>(document, "E"@)
        &&& has::<ForceOrderData>(document, "o"@)
    }

    open spec fn reflects(self, document: JsonValue) -> bool {
        &&& holds(self.event_type, document, "e"@)
        &&& holds(self.event_time, document, "E"@)
        &&& holds(self.order, document, "o"@)
    }

    fn decode(document: &JsonValue) -> (value: Option<Self>) {
        let event_type = required::<EventType>(document, "e")?;
        let event_time = required::<i64>(document, "E")?;
        let order = required::<ForceOrderData>(document, "o")?;
        Some(ForceOrder { event_type, event_time, order })
    }
}

/// The order that a liquidation placed.
#[derive(Debug, Clone, PartialEq)]
pub struct ForceOrderData {
    pub symbol: String,
    pub side: Side,
    pub order_type: OrderType,
    pub time_in_force: TimeInForce,
    pub original_quantity: String,
    pub price: Decimal,
    pub average_price: Decimal,
    pub order_status: OrderStatus,
    pub order_last_filled_quantity: Decimal,
    pub order_filled_accumulated_quantity: Decimal,
    pub order_trade_time: i64,
}

impl Decode for ForceOrderData {
    /// A JSON object with the members of the record, each of its kind.
    open spec fn accepts(document: JsonValue) -> bool {
        &&& has::<String>(document, "s"@)
        &&& has::<Side>(document, "S"@)
        &&& has::<OrderType>(document, "o"@)
        &&& has::<TimeInForce>(document, "f"@)
        &&& has::<String>(document, "q"@)
        &&& has::<Decimal>(document, "p"@)
        &&& has::<Decimal>(document, "ap"@)
        &&& has::<OrderStatus>(document, "X"@)
        &&& has::<Decimal>(document, "l"@)
        &&& has::<Decimal>(document, "z"@)
        &&& has::<i64>(document, "T"@)
    }

    open spec fn reflects(self, document: JsonValue) -> bool {
        &&& holds(self.symbol, document, "s"@)
        &&& holds(self.side, document, "S"@)
        &&& holds(self.order_type, document, "o"@)
        &&& holds(self.time_in_force, document, "f"@)
        &&& holds(self.original_quantity, document, "q"@)
        &&& holds(self.price, document, "p"@)
        &&& holds(self.average_price, document, "ap"@)
        &&& holds(self.order_status, document, "X"@)
        &&& holds(self.order_last_filled_quantity, document, "l"@)
        &&& holds(self.order_filled_accumulated_quantity, document, "z"@)
        &&& holds(self.order_trade_time, document, "T"@)
    }

    fn decode(document: &JsonValue) -> (value: Option<Self>) {
        let symbol = required::<String>(document, "s")?;
        let side = required::<Side>(document, "S")?;
        let order_type = required::<OrderType>(document, "o")?;
        let time_in_force = required::<TimeInForce>(document, "f")?;
        let original_quantity = required::<String>(document, "q")?;
        let price = required::<Decimal>(document, "p")?;
        let average_price = required::<Decimal>(document, "ap")?;
        let order_status = required::<OrderStatus>(document, "X")?;
        let order_last_filled_quantity = required::<Decimal>(document, "l")?;
        let order_filled_accumulated_quantity = required::<Decimal>(document, "z")?;
        let order_trade_time = required::<i64>(document, "T")?;
        Some(
            ForceOrderData {
                symbol,
                side,
                order_type,
                time_in_force,
                original_quantity,
                price,
                average_price,
                order_status,
                order_last_filled_quantity,
                order_filled_accumulated_quantity,
                order_trade_time,
            },
        )
    }
}

/// Changes to the order book of a symbol.
#[derive(Debug, Clone, PartialEq)]
pub struct BookDepth {
    pub event_type: EventType,
    pub event_time: i64,
    pub transaction_time: i64,
    pub symbol: String,
    pub first_update_id: i64,
    pub final_update_id: i64,
    pub previous_final_update_id: i64,
    pub bids: Vec<BidUpdate>,
    pub asks: Vec<AskUpdate>,
}

impl Decode for BookDepth {
    /// A JSON object with the members of the record, each of its kind.
    open spec fn accepts(document: JsonValue) -> bool {
        &&& has::<EventType>(document, "e"@)
        &&& has::<i64>(document, "E"@)
        &&& has::<i64>(document, "T"@)
        &&& has::<String>(document, "s"@)
        &&& has::<i64>(document, "U"@)
        &&& has::<i64>(document, "u"@)
        &&& has::<i64>(document, "pu"@)
        &&& has::<Vec<BidUpdate>>(document, "b"@)
        &&& has::<Vec<AskUpdate>>(document, "a"@)
    }

    open spec fn reflects(self, document: JsonValue) -> bool {
        &&& holds(self.event_type, document, "e"@)
        &&& holds(self.event_time, document, "E"@)
        &&& holds(self.transaction_time, document, "T"@)
        &&& holds(self.symbol, document, "s"@)
        &&& holds(self.first_update_id, document, "U"@)
        &&& holds(self.final_update_id, document, "u"@)
        &&& holds(self.previous_final_update_id, document, "pu"@)
        &&& holds(self.bids, document, "b"@)
        &&& holds(self.asks, document, "a"@)
    }

    fn decode(document: &JsonValue) -> (value: Option<Self>) {
        let event_type = required::<EventType>(document, "e")?;
        let event_time = required::<i64>(document, "E")?;
        let transaction_time = required::<i64>(document, "T")?;
        let symbol = required::<String>(document, "s")?;
        let first_update_id = required::<i64>(document, "U")?;
        let final_update_id = required::<i64>(document, "u")?;
        let previous_final_update_id = required::<i64>(document, "pu")?;
        let bids = required::<Vec<BidUpdate>>(document, "b")?;
        let asks = required::<Vec<AskUpdate>>(document, "a")?;
        Some(
            BookDepth {
                event_type,
                event_time,
                transaction_time,
                symbol,
                first_update_id,
                final_update_id,
                previous_final_update_id,
                bids,
                asks,
            },
        )
    }
}

/// Whether `document` is a price level: an array of a price and a quantity,
/// both decimals.
pub open spec fn is_level(document: JsonValue) -> bool {
    &&& document matches JsonValue::Array(items)
    &&& items@.len() == 2
    &&& Decimal::accepts(items@[0])
    &&& Decimal::accepts(items@[1])
}

/// Whether `price_level` and `quantity` are what the price level `document`
/// holds.
pub open spec fn is_level_of(price_level: Decimal, quantity: Decimal, document: JsonValue) -> bool {
    &&& document matches JsonValue::Array(items)
    &&& items@.len() == 2
    &&& price_level.reflects(items@[0])
    &&& quantity.reflects(items@[1])
}

/// Reads a price level.
fn decode_level(document: &JsonValue) -> (level: Option<(Decimal, Decimal)>)
    ensures
        level is Some <==> is_level(*document),
        level matches Some(pair) ==> is_level_of(pair.0, pair.1, *document),
{
    match document {
        JsonValue::Array(items) => {
            if items.len() != 2 {
                return None;
            }
            let price_level = Decimal::decode(&items[0])?;
            let quantity = Decimal::decode(&items[1])?;
            Some((price_level, quantity))
        },
        _ => None,
    }
}

/// A bid of the order book: the quantity now bid at a price.
#[derive(Debug, Clone, PartialEq)]
pub struct BidUpdate {
    pub price_level: Decimal,
    pub quantity: Decimal,
}

impl Decode for BidUpdate {
    /// A price level.
    open spec fn accepts(document: JsonValue) -> bool {
        is_level(document)
    }

    open spec fn reflects(self, document: JsonValue) -> bool {
        is_level_of(self.price_level, self.quantity, document)
    }

    fn decode(document: &JsonValue) -> (value: Option<Self>) {
        let (price_level, quantity) = decode_level(document)?;
        Some(BidUpdate { price_level, quantity })
    }
}

/// An ask of the order book: the quantity now asked at a price.
#[derive(Debug, Clone, PartialEq)]
pub struct AskUpdate {
    pub price_level: Decimal,
    pub quantity: Decimal,
}

impl Decode for AskUpdate {
    /// A price level.
    open spec fn accepts(document: JsonValue) -> bool {
        is_level(document)
    }

    open spec fn reflects(self, document: JsonValue) -> bool {
        is_level_of(self.price_level, self.quantity, document)
    }

    fn decode(document: &JsonValue) -> (value: Option<Self>) {
        let (price_level, quantity) = decode_level(document)?;
        Some(AskUpdate { price_level, quantity })
    }
}

/// The price of a composite index and what it is made of.
#[derive(Debug, Clone, PartialEq)]
pub struct CompositeIndex {
    pub event_type: EventType,
    pub event_time: i64,
    pub symbol: String,
    pub price: Decimal,
    pub composition_type: String,
    pub composition: Vec<Composition>,
}

impl Decode for CompositeIndex {
    /// A JSON object with the members of the record, each of its kind.
    open spec fn accepts(document: JsonValue) -> bool {
        &&& has::<EventType>(document, "e"@)
        &&& has::<i64>(document, "E"@)
        &&& has::<String>(document, "s"@)
        &&& has::<Decimal>(document, "p"@)
        &&& has::<String>(document, "C"@)
        &&& has::<Vec<Composition>>(document, "c"@)
    }

    open spec fn reflects(self, document: JsonValue) -> bool {
        &&& holds(self.event_type, document, "e"@)
        &&& holds(self.event_time, document, "E"@)
        &&& holds(self.symbol, document, "s"@)
        &&& holds(self.price, document, "p"@)
        &&& holds(self.composition_type, document, "C"@)
        &&& holds(self.composition, document, "c"@)
    }

    fn decode(document: &JsonValue) -> (value: Option<Self>) {
        let event_type = required::<EventType>(document, "e")?;
        let event_time = required::<i64>(document, "E")?;
        let symbol = required::<String>(document, "s")?;
        let price = required::<Decimal>(document, "p")?;
        let composition_type = required::<String>(document, "C")?;
        let composition = required::<Vec<Composition>>(document, "c")?;
        Some(
            CompositeIndex {
                event_type,
                event_time,
                symbol,
                price,
                composition_type,
                composition,
            },
        )
    }
}

/// One asset of a composite index.
#[derive(Debug, Clone, PartialEq)]
pub struct Composition {
    pub base_asset: String,
    pub quote_asset: String,
    pub weight_quantity: Decimal,
    pub weight_percentage: Decimal,
    pub index_price: Decimal,
}

impl Decode for Composition {
    /// A JSON object with the members of the record, each of its kind.
    open spec fn accepts(document: JsonValue) -> bool {
        &&& has::<String>(document, "b"@)
        &&& has::<String>(document, "q"@)
        &&& has::<Decimal>(document, "w"@)
        &&& has::<Decimal>(document, "W"@)
        &&& has::<Decimal>(document, "i"@)
    }

    open spec fn reflects(self, document: JsonValue) -> bool {
        &&& holds(self.base_asset, document, "b"@)
        &&& holds(self.quote_asset, document, "q"@)
        &&& holds(self.weight_quantity, document, "w"@)
        &&& holds(self.weight_percentage, document, "W"@)
        &&& holds(self.index_price, document, "i"@)
    }

    fn decode(document: &JsonValue) -> (value: Option<Self>) {
        let base_asset = required::<String>(document, "b")?;
        let quote_asset = required::<String>(document, "q")?;
        let weight_quantity = required::<Decimal>(document, "w")?;
        let weight_percentage = required::<Decimal>(document, "W")?;
        let index_price = required::<Decimal>(document, "i")?;
        Some(
            Composition {
                base_asset,
                quote_asset,
                weight_quantity,
                weight_percentage,
                index_price,
            },
        )
    }
}

/// The terms of a contract.
#[derive(Debug, Clone, PartialEq)]
pub struct ContractInfo {
    pub event_type: EventType,
    pub event_time: i64,
    pub symbol: String,
    pub pair: String,
    pub contract_type: ContractType,
    pub delivery_date_time: i64,
    pub onboard_date_time: i64,
    pub contract_status: ContractStatus,
    pub brackets: Vec<ContractInfoBracket>,
}

impl Decode for ContractInfo {
    /// A JSON object with the members of the record, each of its kind.
    open spec fn accepts(document: JsonValue) -> bool {
        &&& has::<EventType>(document, "e"@)
        &&& has::<i64>(document, "E"@)
        &&& has::<String>(document, "s"@)
        &&& has::<String>(document, "ps"@)
        &&& has::<ContractType>(document, "ct"@)
        &&& has::<i64>(document, "dt"@)
        &&& has::<i64>(document, "ot"@)
        &&& has::<ContractStatus>(document, "cs"@)
        &&& has::<Vec<ContractInfoBracket>>(document, "bks"@)
    }

    open spec fn reflects(self, document: JsonValue) -> bool {
        &&& holds(self.event_type, document, "e"@)
        &&& holds(self.event_time, document, "E"@)
        &&& holds(self.symbol, document, "s"@)
        &&& holds(self.pair, document, "ps"@)
        &&& holds(self.contract_type, document, "ct"@)
        &&& holds(self.delivery_date_time, document, "dt"@)
        &&& holds(self.onboard_date_time, document, "ot"@)
        &&& holds(self.contract_status, document, "cs"@)
        &&& holds(self.brackets, document, "bks"@)
    }

    fn decode(document: &JsonValue) -> (value: Option<Self>) {
        let event_type = required::<EventType>(document, "e")?;
        let event_time = required::<i64>(document, "E")?;
        let symbol = required::<String>(document, "s")?;
        let pair = required::<String>(document, "ps")?;
        let contract_type = required::<ContractType>(document, "ct")?;
        let delivery_date_time = required::<i64>(document, "dt")?;
        let onboard_date_time = required::<i64>(document, "ot")?;
        let contract_status = required::<ContractStatus>(document, "cs")?;
        let brackets = required::<Vec<ContractInfoBracket>>(document, "bks")?;
        Some(
            ContractInfo {
                event_type,
                event_time,
                symbol,
                pair,
                contract_type,
                delivery_date_time,
                onboard_date_time,
                contract_status,
                brackets,
            },
        )
    }
}

/// One notional bracket of a contract.
#[derive(Debug, Clone, PartialEq)]
pub struct ContractInfoBracket {
    pub notional_bracket: i32,
    pub floor_notional: i64,
    pub cap_notional: i64,
    pub maintenance_ratio: Decimal,
    pub auxiliary_number: i64,
    pub min_leverage: i32,
    pub max_leverage: i32,
}

impl Decode for ContractInfoBracket {
    /// A JSON object with the members of the record, each of its kind.
    open spec fn accepts(document: JsonValue) -> bool {
        &&& has::<i32>(document, "bs"@)
        &&& has::<i64>(document, "bnf"@)
        &&& has::<i64>(document, "bnc"@)
        &&& has::<Decimal>(document, "mmr"@)
        &&& has::<i64>(document, "cf"@)
        &&& has::<i32>(document, "mi"@)
        &&& has::<i32>(document, "ma"@)
    }

    open spec fn reflects(self, document: JsonValue) -> bool {
        &&& holds(self.notional_bracket, document, "bs"@)
        &&& holds(self.floor_notional, document, "bnf"@)
        &&& holds(self.cap_notional, document, "bnc"@)
        &&& holds(self.maintenance_ratio, document, "mmr"@)
        &&& holds(self.auxiliary_number, document, "cf"@)
        &&& holds(self.min_leverage, document, "mi"@)
        &&& holds(self.max_leverage, document, "ma"@)
    }

    fn decode(document: &JsonValue) -> (value: Option<Self>) {
        let notional_bracket = required::<i32>(document, "bs")?;
        let floor_notional = required::<i64>(document, "bnf")?;
        let cap_notional = required::<i64>(document, "bnc")?;
        let maintenance_ratio = required::<Decimal>(document, "mmr")?;
        let auxiliary_number = required::<i64>(document, "cf")?;
        let min_leverage = required::<i32>(document, "mi")?;
        let max_leverage = required::<i32>(document, "ma")?;
        Some(
            ContractInfoBracket {
                notional_bracket,
                floor_notional,
                cap_notional,
                maintenance_ratio,
                auxiliary_number,
                min_leverage,
                max_leverage,
            },
        )
    }
}

/// The indexes of several assets, as they came in one message.
#[derive(Debug, Clone, PartialEq)]
pub struct AssetIndexUpdates {
    pub data: Vec<AssetIndexUpdate>,
}

impl AssetIndexUpdates {
    /// Wraps the records of one message, in the order in which they came.
    pub fn new(asset_index_updates: Vec<AssetIndexUpdate>) -> (batch: AssetIndexUpdates)
        ensures
            batch.data == asset_index_updates,
    {
        Self { data: asset_index_updates }
    }
}

/// The index of an asset in multi-assets mode.
#[derive(Debug, Clone, PartialEq)]
pub struct AssetIndexUpdate {
    pub event_type: EventType,
    pub event_time: i64,
    pub asset_index_symbol: String,
    pub index_price: Decimal,
    pub bid_buffer: Decimal,
    pub ask_buffer: Decimal,
    pub bid_rate: Decimal,
    pub ask_rate: Decimal,
    pub auto_exchange_bid_buffer: Decimal,
    pub auto_exchange_ask_buffer: Decimal,
    pub auto_exchange_bid_rate: Decimal,
    pub auto_exchange_ask_rate: Decimal,
}

impl Decode for AssetIndexUpdate {
    /// A JSON object with the members of the record, each of its kind.
    open spec fn accepts(document: JsonValue) -> bool {
        &&& has::<EventType>(document, "e"@)
        &&& has::<i64>(document, "E"@)
        &&& has::<String>(document, "s"@)
        &&& has::<Decimal>(document, "i"@)
        &&& has::<Decimal>(document, "b"@)
        &&& has::<Decimal>(document, "a"@)
        &&& has::<Decimal>(document, "B"@)
        &&& has::<Decimal>(document, "A"@)
        &&& has::<Decimal>(document, "q"@)
        &&& has::<Decimal>(document, "g"@)
        &&& has::<Decimal>(document, "Q"@)
        &&& has::<Decimal>(document, "G"@)
    }

    open spec fn reflects(self, document: JsonValue) -> bool {
        &&& holds(self.event_type, document, "e"@)
        &&& holds(self.event_time, document, "E"@)
        &&& holds(self.asset_index_symbol, document, "s"@)
        &&& holds(self.index_price, document, "i"@)
        &&& holds(self.bid_buffer, document, "b"@)
        &&& holds(self.ask_buffer, document, "a"@)
        &&& holds(self.bid_rate, document, "B"@)
        &&& holds(self.ask_rate, document, "A"@)
        &&& holds(self.auto_exchange_bid_buffer, document, "q"@)
        &&& holds(self.auto_exchange_ask_buffer, document, "g"@)
        &&& holds(self.auto_exchange_bid_rate, document, "Q"@)
        &&& holds(self.auto_exchange_ask_rate, document, "G"@)
    }

    fn decode(document: &JsonValue) -> (value: Option<Self>) {
        let event_type = required::<EventType>(document, "e")?;
        let event_time = required::<i64>(document, "E")?;
        let asset_index_symbol = required::<String>(document, "s")?;
        let index_price = required::<Decimal>(document, "i")?;
        let bid_buffer = required::<Decimal>(document, "b")?;
        let ask_buffer = required::<Decimal>(document, "a")?;
        let bid_rate = required::<Decimal>(document, "B")?;
        let ask_rate = required::<Decimal>(document, "A")?;
        let auto_exchange_bid_buffer = required::<Decimal>(document, "q")?;
        let auto_exchange_ask_buffer = required::<Decimal>(document, "g")?;
        let auto_exchange_bid_rate = required::<Decimal>(document, "Q")?;
        let auto_exchange_ask_rate = required::<Decimal>(document, "G")?;
        Some(
            AssetIndexUpdate {
                event_type,
                event_time,
                asset_index_symbol,
                index_price,
                bid_buffer,
                ask_buffer,
                bid_rate,
                ask_rate,
                auto_exchange_bid_buffer,
                auto_exchange_ask_buffer,
                auto_exchange_bid_rate,
                auto_exchange_ask_rate,
            },
        )
    }
}

/// A change to an order of the account.
#[derive(Debug, Clone, PartialEq)]
pub struct OrderTradeUpdate {
    pub event_type: EventType,
    pub event_time: i64,
    pub transaction_time: i64,
    pub order_data: OrderData,
}

impl Decode for OrderTradeUpdate {
    /// A JSON object with the members of the record, each of its kind.
    open spec fn accepts(document: JsonValue) -> bool {
        &&& has::<EventType>(document, "e"@)
        &&& has::<i64>(document, "E"@)
        &&& has::<i64>(document, "T"@)
        &&& has::<OrderData>(document, "o"@)
    }

    open spec fn reflects(self, document: JsonValue) -> bool {
        &&& holds(self.event_type, document, "e"@)
        &&& holds(self.event_time, document, "E"@)
        &&& holds(self.transaction_time, document, "T"@)
        &&& holds(self.order_data, document, "o"@)
    }

    fn decode(document: &JsonValue) -> (value: Option<Self>) {
        let event_type = required::<EventType>(document, "e")?;
        let event_time = required::<i64>(document, "E")?;
        let transaction_time = required::<i64>(document, "T")?;
        let order_data = required::<OrderData>(document, "o")?;
        Some(OrderTradeUpdate { event_type, event_time, transaction_time, order_data })
    }
}

/// The order that changed, and the trade that changed it.
#[derive(Debug, Clone, PartialEq)]
pub struct OrderData {
    pub symbol: String,
    pub client_order_id: String,
    pub side: Side,
    pub order_type: OrderType,
    pub time_in_force: TimeInForce,
    pub original_quantity: Decimal,
    pub original_price: Decimal,
    pub average_price: Decimal,
    pub stop_price: Decimal,
    pub execution_type: ExecutionType,
    pub order_status: OrderStatus,
    pub order_id: i64,
    pub order_last_filled_quantity: Decimal,
    pub order_filled_accumulated_quantity: Decimal,
    pub last_filled_price: Decimal,
    pub commission_asset: String,
    pub commission: Decimal,
    pub order_trade_time: i64,
    pub trade_id: i64,
    pub bids_notional: Decimal,
    pub ask_notional: Decimal,
    pub is_trade_maker_side: bool,
    pub is_reduce_only: bool,
    pub stop_price_working_type: WorkingType,
    pub original_order_type: OrderType,
    pub position_side: PositionSide,
    pub is_close_all: bool,
    pub activation_price: Decimal,
    pub callback_rate: Decimal,
    pub is_price_protection_enabled: bool,
    pub ignore1: i64,
    pub ignore2: i64,
    pub realized_profit: Decimal,
    pub stp_mode: StpMode,
    pub price_match_mode: PriceMatch,
    pub gtd_order_auto_cancel_time: i64,
}

impl Decode for OrderData {
    /// A JSON object with the members of the record, each of its kind.
    open spec fn accepts(document: JsonValue) -> bool {
        &&& has::<String>(document, "s"@)
        &&& has::<String>(document, "c"@)
        &&& has::<Side>(document, "S"@)
        &&& has::<OrderType>(document, "o"@)
        &&& has::<TimeInForce>(document, "f"@)
        &&& has::<Decimal>(document, "q"@)
        &&& has::<Decimal>(document, "p"@)
        &&& has::<Decimal>(document, "ap"@)
        &&& has::<Decimal>(document, "sp"@)
        &&& has::<ExecutionType>(document, "x"@)
        &&& has::<OrderStatus>(document, "X"@)
        &&& has::<i64>(document, "i"@)
        &&& has::<Decimal>(document, "l"@)
        &&& has::<Decimal>(document, "z"@)
        &&& has::<Decimal>(document, "L"@)
        &&& has_or_lacks::<String>(document, "N"@)
        &&& has_or_lacks::<Decimal>(document, "n"@)
        &&& has::<i64>(document, "T"@)
        &&& has::<i64>(document, "t"@)
        &&& has::<Decimal>(document, "b"@)
        &&& has::<Decimal>(document, "a"@)
        &&& has::<bool>(document, "m"@)
        &&& has::<bool>(document, "R"@)
        &&& has::<WorkingType>(document, "wt"@)
        &&& has::<OrderType>(document, "ot"@)
        &&& has::<PositionSide>(document, "ps"@)
        &&& has_or_lacks::<bool>(document, "cp"@)
        &&& has_or_lacks::<Decimal>(document, "AP"@)
        &&& has_or_lacks::<Decimal>(document, "cr"@)
        &&& has::<bool>(document, "pP"@)
        &&& has::<i64>(document, "si"@)
        &&& has::<i64>(document, "ss"@)
        &&& has::<Decimal>(document, "rp"@)
        &&& has::<StpMode>(document, "V"@)
        &&& has::<PriceMatch>(document, "pm"@)
        &&& has::<i64>(document, "gtd"@)
    }

    open spec fn reflects(self, document: JsonValue) -> bool {
        &&& holds(self.symbol, document, "s"@)
        &&& holds(self.client_order_id, document, "c"@)
        &&& holds(self.side, document, "S"@)
        &&& holds(self.order_type, document, "o"@)
        &&& holds(self.time_in_force, document, "f"@)
        &&& holds(self.original_quantity, document, "q"@)
        &&& holds(self.original_price, document, "p"@)
        &&& holds(self.average_price, document, "ap"@)
        &&& holds(self.stop_price, document, "sp"@)
        &&& holds(self.execution_type, document, "x"@)
        &&& holds(self.order_status, document, "X"@)
        &&& holds(self.order_id, document, "i"@)
        &&& holds(self.order_last_filled_quantity, document, "l"@)
        &&& holds(self.order_filled_accumulated_quantity, document, "z"@)
        &&& holds(self.last_filled_price, document, "L"@)
        &&& holds_text_or_empty(self.commission_asset, document, "N"@)
        &&& holds_decimal_or_zero(self.commission, document, "n"@)
        &&& holds(self.order_trade_time, document, "T"@)
        &&& holds(self.trade_id, document, "t"@)
        &&& holds(self.bids_notional, document, "b"@)
        &&& holds(self.ask_notional, document, "a"@)
        &&& holds(self.is_trade_maker_side, document, "m"@)
        &&& holds(self.is_reduce_only, document, "R"@)
        &&& holds(self.stop_price_working_type, document, "wt"@)
        &&& holds(self.original_order_type, document, "ot"@)
        &&& holds(self.position_side, document, "ps"@)
        &&& holds_flag_or_false(self.is_close_all, document, "cp"@)
        &&& holds_decimal_or_zero(self.activation_price, document, "AP"@)
        &&& holds_decimal_or_zero(self.callback_rate, document, "cr"@)
        &&& holds(self.is_price_protection_enabled, document, "pP"@)
        &&& holds(self.ignore1, document, "si"@)
        &&& holds(self.ignore2, document, "ss"@)
        &&& holds(self.realized_profit, document, "rp"@)
        &&& holds(self.stp_mode, document, "V"@)
        &&& holds(self.price_match_mode, document, "pm"@)
        &&& holds(self.gtd_order_auto_cancel_time, document, "gtd"@)
    }

    fn decode(document: &JsonValue) -> (value: Option<Self>) {
        let symbol = required::<String>(document, "s")?;
        let client_order_id = required::<String>(document, "c")?;
        let side = required::<Side>(document, "S")?;
        let order_type = required::<OrderType>(document, "o")?;
        let time_in_force = required::<TimeInForce>(document, "f")?;
        let original_quantity = required::<Decimal>(document, "q")?;
        let original_price = required::<Decimal>(document, "p")?;
        let average_price = required::<Decimal>(document, "ap")?;
        let stop_price = required::<Decimal>(document, "sp")?;
        let execution_type = required::<ExecutionType>(document, "x")?;
        let order_status = required::<OrderStatus>(document, "X")?;
        let order_id = required::<i64>(document, "i")?;
        let order_last_filled_quantity = required::<Decimal>(document, "l")?;
        let order_filled_accumulated_quantity = required::<Decimal>(document, "z")?;
        let last_filled_price = required::<Decimal>(document, "L")?;
        let commission_asset = text_or_empty(document, "N")?;
        let commission = decimal_or_zero(document, "n")?;
        let order_trade_time = required::<i64>(document, "T")?;
        let trade_id = required::<i64>(document, "t")?;
        let bids_notional = required::<Decimal>(document, "b")?;
        let ask_notional = required::<Decimal>(document, "a")?;
        let is_trade_maker_side = required::<bool>(document, "m")?;
        let is_reduce_only = required::<bool>(document, "R")?;
        let stop_price_working_type = required::<WorkingType>(document, "wt")?;
        let original_order_type = required::<OrderType>(document, "ot")?;
        let position_side = required::<PositionSide>(document, "ps")?;
        let is_close_all = flag_or_false(document, "cp")?;
        let activation_price = decimal_or_zero(document, "AP")?;
        let callback_rate = decimal_or_zero(document, "cr")?;
        let is_price_protection_enabled = required::<bool>(document, "pP")?;
        let ignore1 = required::<i64>(document, "si")?;
        let ignore2 = required::<i64>(document, "ss")?;
        let realized_profit = required::<Decimal>(document, "rp")?;
        let stp_mode = required::<StpMode>(document, "V")?;
        let price_match_mode = required::<PriceMatch>(document, "pm")?;
        let gtd_order_auto_cancel_time = required::<i64>(document, "gtd")?;
        Some(
            OrderData {
                symbol,
                client_order_id,
                side,
                order_type,
                time_in_force,
                original_quantity,
                original_price,
                average_price,
                stop_price,
                execution_type,
                order_status,
                order_id,
                order_last_filled_quantity,
                order_filled_accumulated_quantity,
                last_filled_price,
                commission_asset,
                commission,
                order_trade_time,
                trade_id,
                bids_notional,
                ask_notional,
                is_trade_maker_side,
                is_reduce_only,
                stop_price_working_type,
                original_order_type,
                position_side,
                is_close_all,
                activation_price,
                callback_rate,
                is_price_protection_enabled,
                ignore1,
                ignore2,
                realized_profit,
                stp_mode,
                price_match_mode,
                gtd_order_auto_cancel_time,
            },
        )
    }
}

/// A change to the balances and positions of the account.
#[derive(Debug, Clone, PartialEq)]
pub struct AccountUpdate {
    pub event_type: EventType,
    pub event_time: i64,
    pub transaction_time: i64,
    pub update_data: UpdateData,
}

impl Decode for AccountUpdate {
    /// A JSON object with the members of the record, each of its kind.
    open spec fn accepts(document: JsonValue) -> bool {
        &&& has::<EventType>(document, "e"@)
        &&& has::<i64>(document, "E"@)
        &&& has::<i64>(document, "T"@)
        &&& has::<UpdateData>(document, "a"@)
    }

    open spec fn reflects(self, document: JsonValue) -> bool {
        &&& holds(self.event_type, document, "e"@)
        &&& holds(self.event_time, document, "E"@)
        &&& holds(self.transaction_time, document, "T"@)
        &&& holds(self.update_data, document, "a"@)
    }

    fn decode(document: &JsonValue) -> (value: Option<Self>) {
        let event_type = required::<EventType>(document, "e")?;
        let event_time = required::<i64>(document, "E")?;
        let transaction_time = required::<i64>(document, "T")?;
        let update_data = required::<UpdateData>(document, "a")?;
        Some(AccountUpdate { event_type, event_time, transaction_time, update_data })
    }
}

/// The balances and positions that changed, and why.
#[derive(Debug, Clone, PartialEq)]
pub struct UpdateData {
    pub event_reason_type: AccountUpdateReason,
    pub balances: Vec<Balance>,
    pub positions: Vec<Position>,
}

impl Decode for UpdateData {
    /// A JSON object with the members of the record, each of its kind.
    open spec fn accepts(document: JsonValue) -> bool {
        &&& has::<AccountUpdateReason>(document, "m"@)
        &&& has::<Vec<Balance>>(document, "B"@)
        &&& has::<Vec<Position>>(document, "P"@)
    }

    open spec fn reflects(self, document: JsonValue) -> bool {
        &&& holds(self.event_reason_type, document, "m"@)
        &&& holds(self.balances, document, "B"@)
        &&& holds(self.positions, document, "P"@)
    }

    fn decode(document: &JsonValue) -> (value: Option<Self>) {
        let event_reason_type = required::<AccountUpdateReason>(document, "m")?;
        let balances = required::<Vec<Balance>>(document, "B")?;
        let positions = required::<Vec<Position>>(document, "P")?;
        Some(UpdateData { event_reason_type, balances, positions })
    }
}

/// The balance of one asset.
#[derive(Debug, Clone, PartialEq)]
pub struct Balance {
    pub asset: String,
    pub wallet_balance: Decimal,
    pub cross_wallet_balance: Decimal,
    pub balance_change: Decimal,
}

impl Decode for Balance {
    /// A JSON object with the members of the record, each of its kind.
    open spec fn accepts(document: JsonValue) -> bool {
        &&& has::<String>(document, "a"@)
        &&& has::<Decimal>(document, "wb"@)
        &&& has::<Decimal>(document, "cw"@)
        &&& has::<Decimal>(document, "bc"@)
    }

    open spec fn reflects(self, document: JsonValue) -> bool {
        &&& holds(self.asset, document, "a"@)
        &&& holds(self.wallet_balance, document, "wb"@)
        &&& holds(self.cross_wallet_balance, document, "cw"@)
        &&& holds(self.balance_change, document, "bc"@)
    }

    fn decode(document: &JsonValue) -> (value: Option<Self>) {
        let asset = required::<String>(document, "a")?;
        let wallet_balance = required::<Decimal>(document, "wb")?;
        let cross_wallet_balance = required::<Decimal>(document, "cw")?;
        let balance_change = required::<Decimal>(document, "bc")?;
        Some(Balance { asset, wallet_balance, cross_wallet_balance, balance_change })
    }
}

/// One position of the account.
#[derive(Debug, Clone, PartialEq)]
pub struct Position {
    pub symbol: String,
    pub position_amount: Decimal,
    pub entry_price: Decimal,
    pub breakeven_price: Decimal,
    pub accumulated_realized: Decimal,
    pub unrealized_pnl: Decimal,
    pub margin_type: MarginType,
    pub isolated_wallet: Decimal,
    pub position_side: PositionSide,
}

impl Decode for Position {
    /// A JSON object with the members of the record, each of its kind.
    open spec fn accepts(document: JsonValue) -> bool {
        &&& has::<String>(document, "s"@)
        &&& has::<Decimal>(document, "pa"@)
        &&& has::<Decimal>(document, "ep"@)
        &&& has::<Decimal>(document, "bep"@)
        &&& has::<Decimal>(document, "cr"@)
        &&& has::<Decimal>(document, "up"@)
        &&& has::<MarginType>(document, "mt"@)
        &&& has::<Decimal>(document, "iw"@)
        &&& has::<PositionSide>(document, "ps"@)
    }

    open spec fn reflects(self, document: JsonValue) -> bool {
        &&& holds(self.symbol, document, "s"@)
        &&& holds(self.position_amount, document, "pa"@)
        &&& holds(self.entry_price, document, "ep"@)
        &&& holds(self.breakeven_price, document, "bep"@)
        &&& holds(self.accumulated_realized, document, "cr"@)
        &&& holds(self.unrealized_pnl, document, "up"@)
        &&& holds(self.margin_type, document, "mt"@)
        &&& holds(self.isolated_wallet, document, "iw"@)
        &&& holds(self.position_side, document, "ps"@)
    }

    fn decode(document: &JsonValue) -> (value: Option<Self>) {
        let symbol = required::<String>(document, "s")?;
        let position_amount = required::<Decimal>(document, "pa")?;
        let entry_price = required::<Decimal>(document, "ep")?;
        let breakeven_price = required::<Decimal>(document, "bep")?;
        let accumulated_realized = required::<Decimal>(document, "cr")?;
        let unrealized_pnl = required::<Decimal>(document, "up")?;
        let margin_type = required::<MarginType>(document, "mt")?;
        let isolated_wallet = required::<Decimal>(document, "iw")?;
        let position_side = required::<PositionSide>(document, "ps")?;
        Some(
            Position {
                symbol,
                position_amount,
                entry_price,
                breakeven_price,
                accumulated_realized,
                unrealized_pnl,
                margin_type,
                isolated_wallet,
                position_side,
            },
        )
    }
}

/// A warning that positions are close to liquidation.
#[derive(Debug, Clone, PartialEq)]
pub struct MarginCall {
    pub event_type: EventType,
    pub event_time: i64,
    pub cross_wallet_balance: Decimal,
    pub positions: Vec<MarginCallPosition>,
}

impl Decode for MarginCall {
    /// A JSON object with the members of the record, each of its kind.
    open spec fn accepts(document: JsonValue) -> bool {
        &&& has::<EventType>(document, "e"@)
        &&& has::<i64>(document, "E"@)
        &&& has::<Decimal>(document, "cw"@)
        &&& has::<Vec<MarginCallPosition>>(document, "p"@)
    }

    open spec fn reflects(self, document: JsonValue) -> bool {
        &&& holds(self.event_type, document, "e"@)
        &&& holds(self.event_time, document, "E"@)
        &&& holds(self.cross_wallet_balance, document, "cw"@)
        &&& holds(self.positions, document, "p"@)
    }

    fn decode(document: &JsonValue) -> (value: Option<Self>) {
        let event_type = required::<EventType>(document, "e")?;
        let event_time = required::<i64>(document, "E")?;
        let cross_wallet_balance = required::<Decimal>(document, "cw")?;
        let positions = required::<Vec<MarginCallPosition>>(document, "p")?;
        Some(MarginCall { event_type, event_time, cross_wallet_balance, positions })
    }
}

/// One position under a margin call.
#[derive(Debug, Clone, PartialEq)]
pub struct MarginCallPosition {
    pub symbol: String,
    pub position_side: PositionSide,
    pub position_amount: Decimal,
    pub margin_type: MarginType,
    pub isolated_wallet: Decimal,
    pub mark_price: Decimal,
    pub unrealized_pnl: Decimal,
    pub maintenance_margin_required: Decimal,
}

impl Decode for MarginCallPosition {
    /// A JSON object with the members of the record, each of its kind.
    open spec fn accepts(document: JsonValue) -> bool {
        &&& has::<String>(document, "s"@)
        &&& has::<PositionSide>(document, "ps"@)
        &&& has::<Decimal>(document, "pa"@)
        &&& has::<MarginType>(document, "mt"@)
        &&& has::<Decimal>(document, "iw"@)
        &&& has::<Decimal>(document, "mp"@)
        &&& has::<Decimal>(document, "up"@)
        &&& has::<Decimal>(document, "mm"@)
    }

    open spec fn reflects(self, document: JsonValue) -> bool {
        &&& holds(self.symbol, document, "s"@)
        &&& holds(self.position_side, document, "ps"@)
        &&& holds(self.position_amount, document, "pa"@)
        &&& holds(self.margin_type, document, "mt"@)
        &&& holds(self.isolated_wallet, document, "iw"@)
        &&& holds(self.mark_price, document, "mp"@)
        &&& holds(self.unrealized_pnl, document, "up"@)
        &&& holds(self.maintenance_margin_required, document, "mm"@)
    }

    fn decode(document: &JsonValue) -> (value: Option<Self>) {
        let symbol = required::<String>(document, "s")?;
        let position_side = required::<PositionSide>(document, "ps")?;
        let position_amount = required::<Decimal>(document, "pa")?;
        let margin_type = required::<MarginType>(document, "mt")?;
        let isolated_wallet = required::<Decimal>(document, "iw")?;
        let mark_price = required::<Decimal>(document, "mp")?;
        let unrealized_pnl = required::<Decimal>(document, "up")?;
        let maintenance_margin_required = required::<Decimal>(document, "mm")?;
        Some(
            MarginCallPosition {
                symbol,
                position_side,
                position_amount,
                margin_type,
                isolated_wallet,
                mark_price,
                unrealized_pnl,
                maintenance_margin_required,
            },
        )
    }
}

/// A change to the leverage of a symbol or to the asset mode of the
/// account.
#[derive(Debug, Clone, PartialEq)]
pub struct AccountConfigUpdate {
    pub event_type: EventType,
    pub event_time: i64,
    pub transaction_time: i64,
    pub account_config: Option<AccountConfig>,
    pub account_info: Option<AccountInfo>,
}

impl Decode for AccountConfigUpdate {
    /// A JSON object with the members of the record, each of its kind.
    open spec fn accepts(document: JsonValue) -> bool {
        &&& has::<EventType>(document, "e"@)
        &&& has::<i64>(document, "E"@)
        &&& has::<i64>(document, "T"@)
        &&& may_have::<AccountConfig>(document, "ac"@)
        &&& may_have::<AccountInfo>(document, "ai"@)
    }

    open spec fn reflects(self, document: JsonValue) -> bool {
        &&& holds(self.event_type, document, "e"@)
        &&& holds(self.event_time, document, "E"@)
        &&& holds(self.transaction_time, document, "T"@)
        &&& holds_optional(self.account_config, document, "ac"@)
        &&& holds_optional(self.account_info, document, "ai"@)
    }

    fn decode(document: &JsonValue) -> (value: Option<Self>) {
        let event_type = required::<EventType>(document, "e")?;
        let event_time = required::<i64>(document, "E")?;
        let transaction_time = required::<i64>(document, "T")?;
        let account_config = optional::<AccountConfig>(document, "ac")?;
        let account_info = optional::<AccountInfo>(document, "ai")?;
        Some(
            AccountConfigUpdate {
                event_type,
                event_time,
                transaction_time,
                account_config,
                account_info,
            },
        )
    }
}

/// The leverage of a symbol.
#[derive(Debug, Clone, PartialEq)]
pub struct AccountConfig {
    pub symbol: String,
    pub leverage: i64,
}

impl Decode for AccountConfig {
    /// A JSON object with the members of the record, each of its kind.
    open spec fn accepts(document: JsonValue) -> bool {
        &&& has::<String>(document, "s"@)
        &&& has::<i64>(document, "l"@)
    }

    open spec fn reflects(self, document: JsonValue) -> bool {
        &&& holds(self.symbol, document, "s"@)
        &&& holds(self.leverage, document, "l"@)
    }

    fn decode(document: &JsonValue) -> (value: Option<Self>) {
        let symbol = required::<String>(document, "s")?;
        let leverage = required::<i64>(document, "l")?;
        Some(AccountConfig { symbol, leverage })
    }
}

/// The asset mode of the account.
#[derive(Debug, Clone, PartialEq)]
pub struct AccountInfo {
    pub multi_assets_mode: Option<bool>,
}

impl Decode for AccountInfo {
    /// A JSON object with the members of the record, each of its kind.
    open spec fn accepts(document: JsonValue) -> bool {
        &&& document is Object
        &&& may_have::<bool>(document, "j"@)
    }

    open spec fn reflects(self, document: JsonValue) -> bool {
        &&& document is Object
        &&& holds_optional(self.multi_assets_mode, document, "j"@)
    }

    fn decode(document: &JsonValue) -> (value: Option<Self>) {
        if !document.is_object() {
            return None;
        }
        let multi_assets_mode = optional::<bool>(document, "j")?;
        Some(AccountInfo { multi_assets_mode })
    }
}

/// A change to a strategy.
#[derive(Debug, Clone, PartialEq)]
pub struct StrategyUpdate {
    pub event_type: EventType,
    pub transaction_time: i64,
    pub event_time: i64,
    pub strategy: Strategy,
}

impl Decode for StrategyUpdate {
    /// A JSON object with the members of the record, each of its kind.
    open spec fn accepts(document: JsonValue) -> bool {
        &&& has::<EventType>(document, "e"@)
        &&& has::<i64>(document, "T"@)
        &&& has::<i64>(document, "E"@)
        &&& has::<Strategy>(document, "su"@)
    }

    open spec fn reflects(self, document: JsonValue) -> bool {
        &&& holds(self.event_type, document, "e"@)
        &&& holds(self.transaction_time, document, "T"@)
        &&& holds(self.event_time, document, "E"@)
        &&& holds(self.strategy, document, "su"@)
    }

    fn decode(document: &JsonValue) -> (value: Option<Self>) {
        let event_type = required::<EventType>(document, "e")?;
        let transaction_time = required::<i64>(document, "T")?;
        let event_time = required::<i64>(document, "E")?;
        let strategy = required::<Strategy>(document, "su")?;
        Some(StrategyUpdate { event_type, transaction_time, event_time, strategy })
    }
}

/// The strategy that changed.
#[derive(Debug, Clone, PartialEq)]
pub struct Strategy {
    pub strategy_id: i64,
    pub strategy_type: String,
    pub strategy_status: StrategyStatus,
    pub symbol: String,
    pub update_time: i64,
    pub op_code: i64,
}

impl Decode for Strategy {
    /// A JSON object with the members of the record, each of its kind.
    open spec fn accepts(document: JsonValue) -> bool {
        &&& has::<i64>(document, "si"@)
        &&& has::<String>(document, "st"@)
        &&& has::<StrategyStatus>(document, "ss"@)
        &&& has::<String>(document, "s"@)
        &&& has::<i64>(document, "ut"@)
        &&& has::<i64>(document, "c"@)
    }

    open spec fn reflects(self, document: JsonValue) -> bool {
        &&& holds(self.strategy_id, document, "si"@)
        &&& holds(self.strategy_type, document, "st"@)
        &&& holds(self.strategy_status, document, "ss"@)
        &&& holds(self.symbol, document, "s"@)
        &&& holds(self.update_time, document, "ut"@)
        &&& holds(self.op_code, document, "c"@)
    }

    fn decode(document: &JsonValue) -> (value: Option<Self>) {
        let strategy_id = required::<i64>(document, "si")?;
        let strategy_type = required::<String>(document, "st")?;
        let strategy_status = required::<StrategyStatus>(document, "ss")?;
        let symbol = required::<String>(document, "s")?;
        let update_time = required::<i64>(document, "ut")?;
        let op_code = required::<i64>(document, "c")?;
        Some(
            Strategy {
                strategy_id,
                strategy_type,
                strategy_status,
                symbol,
                update_time,
                op_code,
            },
        )
    }
}

/// A change to a grid.
#[derive(Debug, Clone, PartialEq)]
pub struct GridUpdate {
    pub event_type: EventType,
    pub transaction_time: i64,
    pub event_time: i64,
    pub grid: Grid,
}

impl Decode for GridUpdate {
    /// A JSON object with the members of the record, each of its kind.
    open spec fn accepts(document: JsonValue) -> bool {
        &&& has::<EventType>(document, "e"@)
        &&& has::<i64>(document, "T"@)
        &&& has::<i64>(document, "E"@)
        &&& has::<Grid>(document, "gu"@)
    }

    open spec fn reflects(self, document: JsonValue) -> bool {
        &&& holds(self.event_type, document, "e"@)
        &&& holds(self.transaction_time, document, "T"@)
        &&& holds(self.event_time, document, "E"@)
        &&& holds(self.grid, document, "gu"@)
    }

    fn decode(document: &JsonValue) -> (value: Option<Self>) {
        let event_type = required::<EventType>(document, "e")?;
        let transaction_time = required::<i64>(document, "T")?;
        let event_time = required::<i64>(document, "E")?;
        let grid = required::<Grid>(document, "gu")?;
        Some(GridUpdate { event_type, transaction_time, event_time, grid })
    }
}

/// The grid that changed.
#[derive(Debug, Clone, PartialEq)]
pub struct Grid {
    pub strategy_id: i64,
    pub strategy_type: String,
    pub strategy_status: StrategyStatus,
    pub symbol: String,
    pub realized_pnl: Decimal,
    pub unmatched_average_price: Decimal,
    pub unmatched_qty: Decimal,
    pub unmatched_fee: Decimal,
    pub matched_pnl: Decimal,
    pub update_time: i64,
}

impl Decode for Grid {
    /// A JSON object with the members of the record, each of its kind.
    open spec fn accepts(document: JsonValue) -> bool {
        &&& has::<i64>(document, "si"@)
        &&& has::<String>(document, "st"@)
        &&& has::<StrategyStatus>(document, "ss"@)
        &&& has::<String>(document, "s"@)
        &&& has::<Decimal>(document, "r"@)
        &&& has::<Decimal>(document, "up"@)
        &&& has::<Decimal>(document, "uq"@)
        &&& has::<Decimal>(document, "uf"@)
        &&& has::<Decimal>(document, "mp"@)
        &&& has::<i64>(document, "ut"@)
    }

    open spec fn reflects(self, document: JsonValue) -> bool {
        &&& holds(self.strategy_id, document, "si"@)
        &&& holds(self.strategy_type, document, "st"@)
        &&& holds(self.strategy_status, document, "ss"@)
        &&& holds(self.symbol, document, "s"@)
        &&& holds(self.realized_pnl, document, "r"@)
        &&& holds(self.unmatched_average_price, document, "up"@)
        &&& holds(self.unmatched_qty, document, "uq"@)
        &&& holds(self.unmatched_fee, document, "uf"@)
        &&& holds(self.matched_pnl, document, "mp"@)
        &&& holds(self.update_time, document, "ut"@)
    }

    fn decode(document: &JsonValue) -> (value: Option<Self>) {
        let strategy_id = required::<i64>(document, "si")?;
        let strategy_type = required::<String>(document, "st")?;
        let strategy_status = required::<StrategyStatus>(document, "ss")?;
        let symbol = required::<String>(document, "s")?;
        let realized_pnl = required::<Decimal>(document, "r")?;
        let unmatched_average_price = required::<Decimal>(document, "up")?;
        let unmatched_qty = required::<Decimal>(document, "uq")?;
        let unmatched_fee = required::<Decimal>(document, "uf")?;
        let matched_pnl = required::<Decimal>(document, "mp")?;
        let update_time = required::<i64>(document, "ut")?;
        Some(
            Grid {
                strategy_id,
                strategy_type,
                strategy_status,
                symbol,
                realized_pnl,
                unmatched_average_price,
                unmatched_qty,
                unmatched_fee,
                matched_pnl,
                update_time,
            },
        )
    }
}

/// A conditional order that was rejected when it triggered.
#[derive(Debug, Clone, PartialEq)]
pub struct ConditionalOrderTriggerReject {
    pub event_type: EventType,
    pub event_time: i64,
    pub message_send_time: i64,
    pub order_reject: OrderReject,
}

impl Decode for ConditionalOrderTriggerReject {
    /// A JSON object with the members of the record, each of its kind.
    open spec fn accepts(document: JsonValue) -> bool {
        &&& has::<EventType>(document, "e"@)
        &&& has::<i64>(document, "E"@)
        &&& has::<i64>(document, "T"@)
        &&& has::<OrderReject>(document, "or"@)
    }

    open spec fn reflects(self, document: JsonValue) -> bool {
        &&& holds(self.event_type, document, "e"@)
        &&& holds(self.event_time, document, "E"@)
        &&& holds(self.message_send_time, document, "T"@)
        &&& holds(self.order_reject, document, "or"@)
    }

    fn decode(document: &JsonValue) -> (value: Option<Self>) {
        let event_type = required::<EventType>(document, "e")?;
        let event_time = required::<i64>(document, "E")?;
        let message_send_time = required::<i64>(document, "T")?;
        let order_reject = required::<OrderReject>(document, "or")?;
        Some(
            ConditionalOrderTriggerReject {
                event_type,
                event_time,
                message_send_time,
                order_reject,
            },
        )
    }
}

/// The order that was rejected, and why.
#[derive(Debug, Clone, PartialEq)]
pub struct OrderReject {
    pub symbol: String,
    pub order_id: i64,
    pub reject_reason: String,
}

impl Decode for OrderReject {
    /// A JSON object with the members of the record, each of its kind.
    open spec fn accepts(document: JsonValue) -> bool {
        &&& has::<String>(document, "s"@)
        &&& has::<i64>(document, "i"@)
        &&& has::<String>(document, "r"@)
    }

    open spec fn reflects(self, document: JsonValue) -> bool {
        &&& holds(self.symbol, document, "s"@)
        &&& holds(self.order_id, document, "i"@)
        &&& holds(self.reject_reason, document, "r"@)
    }

    fn decode(document: &JsonValue) -> (value: Option<Self>) {
        let symbol = required::<String>(document, "s")?;
        let order_id = required::<i64>(document, "i")?;
        let reject_reason = required::<String>(document, "r")?;
        Some(OrderReject { symbol, order_id, reject_reason })
    }
}

} // verus!
