//! The events that the feed sends, and the tags that tell them apart.

use crate::decode::Decode;
use crate::futures_usd::response::AccountConfigUpdate;
use crate::futures_usd::response::AccountUpdate;
use crate::futures_usd::response::AggTrade;
use crate::futures_usd::response::AssetIndexUpdate;
use crate::futures_usd::response::AssetIndexUpdates;
use crate::futures_usd::response::BookDepth;
use crate::futures_usd::response::BookTicker;
use crate::futures_usd::response::BookTickers;
use crate::futures_usd::response::CompositeIndex;
use crate::futures_usd::response::ConditionalOrderTriggerReject;
use crate::futures_usd::response::ContinuousKline;
use crate::futures_usd::response::ContractInfo;
use crate::futures_usd::response::ForceOrder;
use crate::futures_usd::response::GridUpdate;
use crate::futures_usd::response::Kline;
use crate::futures_usd::response::MarginCall;
use crate::futures_usd::response::MarkPriceUpdate;
use crate::futures_usd::response::MarkPriceUpdates;
use crate::futures_usd::response::MiniTicker;
use crate::futures_usd::response::MiniTickers;
use crate::futures_usd::response::OrderTradeUpdate;
use crate::futures_usd::response::StrategyUpdate;
use crate::futures_usd::response::Ticker;
use crate::futures_usd::response::Tickers;
use crate::json::JsonValue;
use crate::text::same_text;
use vstd::prelude::*;

verus! {

/// What kind of data an event carries.
#[derive(Debug, Clone, Copy, PartialEq, Eq, Structural)]
pub enum EventCategory {
    /// Prices, trades, books and contracts: what every session can ask for.
    MarketData,
    /// Orders, balances and positions of one account.
    AccountData,
    /// The answer of the feed to a request of the session: no data.
    Acknowledgement,
}

/// One message of the feed, read into the record that its tag names.
#[derive(Debug, Clone, PartialEq)]
pub enum Event {
    BookTickerEvent(BookTicker),
    BookTickersEvent(BookTickers),
    AggTradeEvent(AggTrade),
    MarkPriceUpdateEvent(MarkPriceUpdate),
    MarkPriceUpdatesEvent(MarkPriceUpdates),
    KlineEvent(Kline),
    ContinuousKlineEvent(ContinuousKline),
    MiniTickerEvent(MiniTicker),
    MiniTickersEvent(MiniTickers),
    TickerEvent(Ticker),
    TickersEvent(Tickers),
    ForceOrderEvent(ForceOrder),
    BookDepthEvent(BookDepth),
    CompositeIndexEvent(CompositeIndex),
    ContractInfoEvent(ContractInfo),
    AssetIndexUpdateEvent(AssetIndexUpdate),
    AssetIndexUpdatesEvent(AssetIndexUpdates),
    OrderTradeUpdateEvent(OrderTradeUpdate),
    AccountUpdateEvent(AccountUpdate),
    MarginCallEvent(MarginCall),
    AccountConfigUpdateEvent(AccountConfigUpdate),
    StrategyUpdateEvent(StrategyUpdate),
    GridUpdateEvent(GridUpdate),
    ConditionalOrderTriggerRejectEvent(ConditionalOrderTriggerReject),
    /// The feed acknowledged a request. It carries no data.
    SubscribeResponseEvent,
}

impl Event {
    /// What kind of data the event carries. An acknowledgement is neither
    /// market data nor account data.
    pub open spec fn category_of(self) -> EventCategory {
        match self {
            Event::SubscribeResponseEvent => EventCategory::Acknowledgement,
            Event::OrderTradeUpdateEvent(_)
            | Event::AccountUpdateEvent(_)
            | Event::MarginCallEvent(_)
            | Event::AccountConfigUpdateEvent(_)
            | Event::StrategyUpdateEvent(_)
            | Event::GridUpdateEvent(_)
            | Event::ConditionalOrderTriggerRejectEvent(_) => EventCategory::AccountData,
            _ => EventCategory::MarketData,
        }
    }

    /// What kind of data the event carries.
    pub fn category(&self) -> (category: EventCategory)
        ensures
            category == self.category_of(),
            *self is SubscribeResponseEvent <==> category == EventCategory::Acknowledgement,
    {
        match self {
            Event::SubscribeResponseEvent => EventCategory::Acknowledgement,
            Event::OrderTradeUpdateEvent(_)
            | Event::AccountUpdateEvent(_)
            | Event::MarginCallEvent(_)
            | Event::AccountConfigUpdateEvent(_)
            | Event::StrategyUpdateEvent(_)
            | Event::GridUpdateEvent(_)
            | Event::ConditionalOrderTriggerRejectEvent(_) => EventCategory::AccountData,
            _ => EventCategory::MarketData,
        }
    }
}

/// The tag by which a message of the feed says what it is.
#[derive(Debug, Clone, Copy, PartialEq, Eq, Structural)]
pub enum EventType {
    BookTickerEventType,
    AggTradeEventType,
    MarkPriceUpdateEventType,
    KlineEventType,
    ContinuousKlineEventType,
    MiniTickerEventType,
    TickerEventType,
    ForceOrderEventType,
    BookDepthEventType,
    CompositeIndexEventType,
    ContractInfoEventType,
    AssetIndexUpdateEventType,
    OrderTradeUpdateEventType,
    AccountUpdateEventType,
    MarginCallEventType,
    AccountConfigUpdateEventType,
    StrategyUpdateEventType,
    GridUpdateEventType,
    ConditionalOrderTriggerRejectEventType,
}

impl EventType {
    /// The name under which the feed sends each variant.
    pub open spec fn wire_name(self) -> Seq<char> {
        match self {
            EventType::BookTickerEventType => "bookTicker"@,
            EventType::AggTradeEventType => "aggTrade"@,
            EventType::MarkPriceUpdateEventType => "markPriceUpdate"@,
            EventType::KlineEventType => "kline"@,
            EventType::ContinuousKlineEventType => "continuous_kline"@,
            EventType::MiniTickerEventType => "24hrMiniTicker"@,
            EventType::TickerEventType => "24hrTicker"@,
            EventType::ForceOrderEventType => "forceOrder"@,
            EventType::BookDepthEventType => "depthUpdate"@,
            EventType::CompositeIndexEventType => "compositeIndex"@,
            EventType::ContractInfoEventType => "contractInfo"@,
            EventType::AssetIndexUpdateEventType => "assetIndexUpdate"@,
            EventType::OrderTradeUpdateEventType => "ORDER_TRADE_UPDATE"@,
            EventType::AccountUpdateEventType => "ACCOUNT_UPDATE"@,
            EventType::MarginCallEventType => "MARGIN_CALL"@,
            EventType::AccountConfigUpdateEventType => "ACCOUNT_CONFIG_UPDATE"@,
            EventType::StrategyUpdateEventType => "STRATEGY_UPDATE"@,
            EventType::GridUpdateEventType => "GRID_UPDATE"@,
            EventType::ConditionalOrderTriggerRejectEventType => "CONDITIONAL_ORDER_TRIGGER_REJECT"@,
        }
    }

    /// The variant that the feed sends as `name`.
    pub open spec fn named(name: Seq<char>) -> Option<EventType> {
        if name == "bookTicker"@ {
            Some(EventType::BookTickerEventType)
        } else if name == "aggTrade"@ {
            Some(EventType::AggTradeEventType)
        } else if name == "markPriceUpdate"@ {
            Some(EventType::MarkPriceUpdateEventType)
        } else if name == "kline"@ {
            Some(EventType::KlineEventType)
        } else if name == "continuous_kline"@ {
            Some(EventType::ContinuousKlineEventType)
        } else if name == "24hrMiniTicker"@ {
            Some(EventType::MiniTickerEventType)
        } else if name == "24hrTicker"@ {
            Some(EventType::TickerEventType)
        } else if name == "forceOrder"@ {
            Some(EventType::ForceOrderEventType)
        } else if name == "depthUpdate"@ {
            Some(EventType::BookDepthEventType)
        } else if name == "compositeIndex"@ {
            Some(EventType::CompositeIndexEventType)
        } else if name == "contractInfo"@ {
            Some(EventType::ContractInfoEventType)
        } else if name == "assetIndexUpdate"@ {
            Some(EventType::AssetIndexUpdateEventType)
        } else if name == "ORDER_TRADE_UPDATE"@ {
            Some(EventType::OrderTradeUpdateEventType)
        } else if name == "ACCOUNT_UPDATE"@ {
            Some(EventType::AccountUpdateEventType)
        } else if name == "MARGIN_CALL"@ {
            Some(EventType::MarginCallEventType)
        } else if name == "ACCOUNT_CONFIG_UPDATE"@ {
            Some(EventType::AccountConfigUpdateEventType)
        } else if name == "STRATEGY_UPDATE"@ {
            Some(EventType::StrategyUpdateEventType)
        } else if name == "GRID_UPDATE"@ {
            Some(EventType::GridUpdateEventType)
        } else if name == "CONDITIONAL_ORDER_TRIGGER_REJECT"@ {
            Some(EventType::ConditionalOrderTriggerRejectEventType)
        } else {
            None
        }
    }

    /// Reads a variant from the name under which the feed sends it.
    pub fn from_wire_name(name: &str) -> (variant: Option<EventType>)
        ensures
            variant == EventType::named(name@),
    {
        if same_text(name, "bookTicker") {
            Some(EventType::BookTickerEventType)
        } else if same_text(name, "aggTrade") {
            Some(EventType::AggTradeEventType)
        } else if same_text(name, "markPriceUpdate") {
            Some(EventType::MarkPriceUpdateEventType)
        } else if same_text(name, "kline") {
            Some(EventType::KlineEventType)
        } else if same_text(name, "continuous_kline") {
            Some(EventType::ContinuousKlineEventType)
        } else if same_text(name, "24hrMiniTicker") {
            Some(EventType::MiniTickerEventType)
        } else if same_text(name, "24hrTicker") {
            Some(EventType::TickerEventType)
        } else if same_text(name, "forceOrder") {
            Some(EventType::ForceOrderEventType)
        } else if same_text(name, "depthUpdate") {
            Some(EventType::BookDepthEventType)
        } else if same_text(name, "compositeIndex") {
            Some(EventType::CompositeIndexEventType)
        } else if same_text(name, "contractInfo") {
            Some(EventType::ContractInfoEventType)
        } else if same_text(name, "assetIndexUpdate") {
            Some(EventType::AssetIndexUpdateEventType)
        } else if same_text(name, "ORDER_TRADE_UPDATE") {
            Some(EventType::OrderTradeUpdateEventType)
        } else if same_text(name, "ACCOUNT_UPDATE") {
            Some(EventType::AccountUpdateEventType)
        } else if same_text(name, "MARGIN_CALL") {
            Some(EventType::MarginCallEventType)
        } else if same_text(name, "ACCOUNT_CONFIG_UPDATE") {
            Some(EventType::AccountConfigUpdateEventType)
        } else if same_text(name, "STRATEGY_UPDATE") {
            Some(EventType::StrategyUpdateEventType)
        } else if same_text(name, "GRID_UPDATE") {
            Some(EventType::GridUpdateEventType)
        } else if same_text(name, "CONDITIONAL_ORDER_TRIGGER_REJECT") {
            Some(EventType::ConditionalOrderTriggerRejectEventType)
        } else {
            None
        }
    }

    /// Each variant is read back from the name under which the feed sends
    /// it: no two variants share a name.
    pub proof fn wire_name_reads_back(variant: EventType)
        ensures
            EventType::named(variant.wire_name()) == Some(variant),
    {
        reveal_strlit("bookTicker");
        reveal_strlit("aggTrade");
        reveal_strlit("markPriceUpdate");
        reveal_strlit("kline");
        reveal_strlit("continuous_kline");
        reveal_strlit("24hrMiniTicker");
        reveal_strlit("24hrTicker");
        reveal_strlit("forceOrder");
        reveal_strlit("depthUpdate");
        reveal_strlit("compositeIndex");
        reveal_strlit("contractInfo");
        reveal_strlit("assetIndexUpdate");
        reveal_strlit("ORDER_TRADE_UPDATE");
        reveal_strlit("ACCOUNT_UPDATE");
        reveal_strlit("MARGIN_CALL");
        reveal_strlit("ACCOUNT_CONFIG_UPDATE");
        reveal_strlit("STRATEGY_UPDATE");
        reveal_strlit("GRID_UPDATE");
        reveal_strlit("CONDITIONAL_ORDER_TRIGGER_REJECT");
        assert({
            &&& "bookTicker"@.len() == 10
            &&& "aggTrade"@.len() == 8
            &&& "markPriceUpdate"@.len() == 15
            &&& "kline"@.len() == 5
            &&& "continuous_kline"@.len() == 16
            &&& "24hrMiniTicker"@.len() == 14
            &&& "24hrTicker"@.len() == 10
            &&& "forceOrder"@.len() == 10
            &&& "depthUpdate"@.len() == 11
            &&& "compositeIndex"@.len() == 14
            &&& "contractInfo"@.len() == 12
            &&& "assetIndexUpdate"@.len() == 16
            &&& "ORDER_TRADE_UPDATE"@.len() == 18
            &&& "ACCOUNT_UPDATE"@.len() == 14
            &&& "MARGIN_CALL"@.len() == 11
            &&& "ACCOUNT_CONFIG_UPDATE"@.len() == 21
            &&& "STRATEGY_UPDATE"@.len() == 15
            &&& "GRID_UPDATE"@.len() == 11
            &&& "CONDITIONAL_ORDER_TRIGGER_REJECT"@.len() == 32
        });
        assert({
            &&& "bookTicker"@[0] == 'b'
            &&& "markPriceUpdate"@[0] == 'm'
            &&& "continuous_kline"@[0] == 'c'
            &&& "24hrMiniTicker"@[0] == '2'
            &&& "24hrTicker"@[0] == '2'
            &&& "forceOrder"@[0] == 'f'
            &&& "depthUpdate"@[0] == 'd'
            &&& "compositeIndex"@[0] == 'c'
            &&& "assetIndexUpdate"@[0] == 'a'
            &&& "ACCOUNT_UPDATE"@[0] == 'A'
            &&& "MARGIN_CALL"@[0] == 'M'
            &&& "STRATEGY_UPDATE"@[0] == 'S'
            &&& "GRID_UPDATE"@[0] == 'G'
        });
    }
}

impl Decode for EventType {
    /// A JSON string that holds the wire name of a variant.
    open spec fn accepts(document: JsonValue) -> bool {
        document matches JsonValue::String(s) && EventType::named(s@) is Some
    }

    open spec fn reflects(self, document: JsonValue) -> bool {
        document matches JsonValue::String(s) && EventType::named(s@) == Some(self)
    }

    fn decode(document: &JsonValue) -> (value: Option<Self>) {
        match document {
            JsonValue::String(s) => EventType::from_wire_name(s.as_str()),
            _ => None,
        }
    }
}

} // verus!
