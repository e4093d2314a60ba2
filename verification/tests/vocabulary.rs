use binance_connect::futures_usd::enums::binance::AccountUpdateReason;
use binance_connect::futures_usd::enums::binance::BookDepthUpdateSpeed;
use binance_connect::futures_usd::enums::binance::ContractStatus;
use binance_connect::futures_usd::enums::binance::ContractType;
use binance_connect::futures_usd::enums::binance::ExecutionType;
use binance_connect::futures_usd::enums::binance::KlineContractType;
use binance_connect::futures_usd::enums::binance::KlineInterval;
use binance_connect::futures_usd::enums::binance::MarginType;
use binance_connect::futures_usd::enums::binance::MarkPriceUpdateSpeed;
use binance_connect::futures_usd::enums::binance::OrderStatus;
use binance_connect::futures_usd::enums::binance::OrderType;
use binance_connect::futures_usd::enums::binance::PartialBookDepthLevel;
use binance_connect::futures_usd::enums::binance::PositionSide;
use binance_connect::futures_usd::enums::binance::PriceMatch;
use binance_connect::futures_usd::enums::binance::Side;
use binance_connect::futures_usd::enums::binance::StpMode;
use binance_connect::futures_usd::enums::binance::StrategyStatus;
use binance_connect::futures_usd::enums::binance::TimeInForce;
use binance_connect::futures_usd::enums::binance::WorkingType;
use binance_connect::futures_usd::enums::events::EventType;

#[test]
fn strategy_status_texts() {
    assert_eq!(StrategyStatus::New.to_str(), "NEW");
    assert_eq!(StrategyStatus::Working.to_str(), "WORKING");
    assert_eq!(StrategyStatus::Cancelled.to_str(), "CANCELLED");
    assert_eq!(StrategyStatus::Expired.to_str(), "EXPIRED");
}

#[test]
fn account_update_reason_texts() {
    let all = [
        (AccountUpdateReason::Deposit, "DEPOSIT"),
        (AccountUpdateReason::Withdraw, "WITHDRAW"),
        (AccountUpdateReason::Order, "ORDER"),
        (AccountUpdateReason::FundingFee, "FUNDING_FEE"),
        (AccountUpdateReason::WithdrawReject, "WITHDRAW_REJECT"),
        (AccountUpdateReason::Adjustment, "ADJUSTMENT"),
        (AccountUpdateReason::InsuranceClear, "INSURANCE_CLEAR"),
        (AccountUpdateReason::AdminDeposit, "ADMIN_DEPOSIT"),
        (AccountUpdateReason::AdminWithdraw, "ADMIN_WITHDRAW"),
        (AccountUpdateReason::MarginTransfer, "MARGIN_TRANSFER"),
        (AccountUpdateReason::MarginTypeChange, "MARGIN_TYPE_CHANGE"),
        (AccountUpdateReason::AssetTransfer, "ASSET_TRANSFER"),
        (AccountUpdateReason::OptionsPremiumFee, "OPTIONS_PREMIUM_FEE"),
        (AccountUpdateReason::OptionsSettleProfit, "OPTIONS_SETTLE_PROFIT"),
        (AccountUpdateReason::AutoExchange, "AUTO_EXCHANGE"),
        (AccountUpdateReason::CoinSwapDeposit, "COIN_SWAP_DEPOSIT"),
        (AccountUpdateReason::CoinSwapWithdraw, "COIN_SWAP_WITHDRAW"),
    ];
    for (reason, text) in all {
        assert_eq!(reason.to_str(), text);
        assert_eq!(AccountUpdateReason::from_wire_name(text), Some(reason));
    }
    assert_eq!(AccountUpdateReason::from_wire_name("deposit"), None);
}

#[test]
fn margin_type_texts() {
    assert_eq!(MarginType::Isolated.to_str(), "isolated");
    assert_eq!(MarginType::Crossed.to_str(), "crossed");
    assert_eq!(MarginType::from_wire_name("crossed"), Some(MarginType::Crossed));
    assert_eq!(MarginType::from_wire_name("CROSSED"), None);
}

#[test]
fn price_match_texts() {
    let all = [
        (PriceMatch::NoMatch, "NONE"),
        (PriceMatch::Opponent, "OPPONENT"),
        (PriceMatch::Opponent5, "OPPONENT_5"),
        (PriceMatch::Opponent10, "OPPONENT_10"),
        (PriceMatch::Opponent20, "OPPONENT_20"),
        (PriceMatch::Queue, "QUEUE"),
        (PriceMatch::Queue5, "QUEUE_5"),
        (PriceMatch::Queue10, "QUEUE_10"),
        (PriceMatch::Queue20, "QUEUE_20"),
    ];
    for (mode, text) in all {
        assert_eq!(mode.to_str(), text);
        assert_eq!(PriceMatch::from_wire_name(text), Some(mode));
    }
}

#[test]
fn stp_mode_texts() {
    let all = [
        (StpMode::NoStp, "NONE"),
        (StpMode::ExpireTaker, "EXPIRE_TAKER"),
        (StpMode::ExpireBoth, "EXPIRE_BOTH"),
        (StpMode::ExpireMaker, "EXPIRE_MAKER"),
    ];
    for (mode, text) in all {
        assert_eq!(mode.to_str(), text);
        assert_eq!(StpMode::from_wire_name(text), Some(mode));
    }
}

#[test]
fn contract_type_texts() {
    let all = [
        (ContractType::Perpetual, "PERPETUAL"),
        (ContractType::CurrentMonth, "CURRENT_MONTH"),
        (ContractType::NextMonth, "NEXT_MONTH"),
        (ContractType::CurrentQuarter, "CURRENT_QUARTER"),
        (ContractType::NextQuarter, "NEXT_QUARTER"),
        (ContractType::PerpetualDelivering, "PERPETUAL_DELIVERING"),
    ];
    for (kind, text) in all {
        assert_eq!(kind.to_str(), text);
        assert_eq!(ContractType::from_wire_name(text), Some(kind));
    }
}

#[test]
fn contract_status_texts() {
    let all = [
        (ContractStatus::PendingTrading, "PENDING_TRADING"),
        (ContractStatus::Trading, "TRADING"),
        (ContractStatus::PreDelivering, "PRE_DELIVERING"),
        (ContractStatus::Delivering, "DELIVERING"),
        (ContractStatus::Delivered, "DELIVERED"),
        (ContractStatus::PreSettle, "PRE_SETTLE"),
        (ContractStatus::Settling, "SETTLING"),
        (ContractStatus::Close, "CLOSE"),
    ];
    for (status, text) in all {
        assert_eq!(status.to_str(), text);
        assert_eq!(ContractStatus::from_wire_name(text), Some(status));
    }
}

#[test]
fn order_status_texts() {
    let all = [
        (OrderStatus::New, "NEW"),
        (OrderStatus::PartiallyFilled, "PARTIALLY_FILLED"),
        (OrderStatus::Filled, "FILLED"),
        (OrderStatus::Canceled, "CANCELED"),
        (OrderStatus::Rejected, "REJECTED"),
        (OrderStatus::Expired, "EXPIRED"),
    ];
    for (status, text) in all {
        assert_eq!(status.to_str(), text);
        assert_eq!(OrderStatus::from_wire_name(text), Some(status));
    }
}

#[test]
fn working_type_texts() {
    assert_eq!(WorkingType::MarkPrice.to_str(), "MARK_PRICE");
    assert_eq!(WorkingType::ContractPrice.to_str(), "CONTRACT_PRICE");
    assert_eq!(WorkingType::from_wire_name("MARK_PRICE"), Some(WorkingType::MarkPrice));
    assert_eq!(WorkingType::from_wire_name("CONTRACT_PRICE"), Some(WorkingType::ContractPrice));
}

#[test]
fn time_in_force_texts() {
    let all = [
        (TimeInForce::GTC, "GTC"),
        (TimeInForce::IOC, "IOC"),
        (TimeInForce::FOK, "FOK"),
        (TimeInForce::GTX, "GTX"),
        (TimeInForce::GTD, "GTD"),
    ];
    for (force, text) in all {
        assert_eq!(force.to_str(), text);
        assert_eq!(TimeInForce::from_wire_name(text), Some(force));
    }
}

#[test]
fn execution_type_texts() {
    let all = [
        (ExecutionType::New, "NEW"),
        (ExecutionType::Canceled, "CANCELED"),
        (ExecutionType::Calculated, "CALCULATED"),
        (ExecutionType::Expired, "EXPIRED"),
        (ExecutionType::Trade, "TRADE"),
        (ExecutionType::Amendment, "AMENDMENT"),
    ];
    for (kind, text) in all {
        assert_eq!(kind.to_str(), text);
        assert_eq!(ExecutionType::from_wire_name(text), Some(kind));
    }
}

#[test]
fn order_type_texts() {
    let all = [
        (OrderType::Limit, "LIMIT"),
        (OrderType::Market, "MARKET"),
        (OrderType::Stop, "STOP"),
        (OrderType::StopMarket, "STOP_MARKET"),
        (OrderType::TakeProfit, "TAKE_PROFIT"),
        (OrderType::TakeProfitMarket, "TAKE_PROFIT_MARKET"),
        (OrderType::TrailingStopMarket, "TRAILING_STOP_MARKET"),
    ];
    for (kind, text) in all {
        assert_eq!(kind.to_str(), text);
        assert_eq!(OrderType::from_wire_name(text), Some(kind));
    }
}

#[test]
fn side_texts() {
    assert_eq!(Side::Buy.to_str(), "BUY");
    assert_eq!(Side::Sell.to_str(), "SELL");
    assert_eq!(Side::from_wire_name("BUY"), Some(Side::Buy));
    assert_eq!(Side::from_wire_name("SELL"), Some(Side::Sell));
    assert_eq!(Side::from_wire_name(""), None);
}

#[test]
fn position_side_texts() {
    assert_eq!(PositionSide::Long.to_str(), "LONG");
    assert_eq!(PositionSide::Short.to_str(), "SHORT");
    assert_eq!(PositionSide::Both.to_str(), "BOTH");
    assert_eq!(PositionSide::from_wire_name("BOTH"), Some(PositionSide::Both));
}

#[test]
fn stream_parameter_texts() {
    assert_eq!(MarkPriceUpdateSpeed::Seconds1.to_str(), "1s");
    assert_eq!(MarkPriceUpdateSpeed::Seconds3.to_str(), "3s");
    assert_eq!(PartialBookDepthLevel::Five.to_str(), "5");
    assert_eq!(PartialBookDepthLevel::Ten.to_str(), "10");
    assert_eq!(PartialBookDepthLevel::Twenty.to_str(), "20");
    assert_eq!(BookDepthUpdateSpeed::Millis100.to_str(), "100ms");
    assert_eq!(BookDepthUpdateSpeed::Millis250.to_str(), "250ms");
    assert_eq!(BookDepthUpdateSpeed::Millis500.to_str(), "500ms");
}

#[test]
fn kline_interval_texts() {
    let all = [
        (KlineInterval::Minutes1, "1m"),
        (KlineInterval::Minutes3, "3m"),
        (KlineInterval::Minutes5, "5m"),
        (KlineInterval::Minutes15, "15m"),
        (KlineInterval::Minutes30, "30m"),
        (KlineInterval::Hours1, "1h"),
        (KlineInterval::Hours2, "2h"),
        (KlineInterval::Hours4, "4h"),
        (KlineInterval::Hours6, "6h"),
        (KlineInterval::Hours8, "8h"),
        (KlineInterval::Hours12, "12h"),
        (KlineInterval::Days1, "1d"),
        (KlineInterval::Days3, "3d"),
        (KlineInterval::Weeks1, "1w"),
        (KlineInterval::Months1, "1M"),
    ];
    for (interval, text) in all {
        assert_eq!(interval.to_str(), text);
        assert_eq!(KlineInterval::from_wire_name(text), Some(interval));
    }
    assert_eq!(KlineInterval::from_wire_name("1D"), None);
}

#[test]
fn kline_contract_type_is_lower_case_in_stream_names_only() {
    assert_eq!(KlineContractType::Perpetual.to_str(), "perpetual");
    assert_eq!(KlineContractType::CurrentQuarter.to_str(), "current_quarter");
    assert_eq!(KlineContractType::NextQuarter.to_str(), "next_quarter");
    assert_eq!(
        KlineContractType::from_wire_name("PERPETUAL"),
        Some(KlineContractType::Perpetual)
    );
    assert_eq!(
        KlineContractType::from_wire_name("CURRENT_QUARTER"),
        Some(KlineContractType::CurrentQuarter)
    );
    assert_eq!(
        KlineContractType::from_wire_name("NEXT_QUARTER"),
        Some(KlineContractType::NextQuarter)
    );
    assert_eq!(KlineContractType::from_wire_name("perpetual"), None);
}

#[test]
fn event_tags() {
    let all = [
        (EventType::BookTickerEventType, "bookTicker"),
        (EventType::AggTradeEventType, "aggTrade"),
        (EventType::MarkPriceUpdateEventType, "markPriceUpdate"),
        (EventType::KlineEventType, "kline"),
        (EventType::ContinuousKlineEventType, "continuous_kline"),
        (EventType::MiniTickerEventType, "24hrMiniTicker"),
        (EventType::TickerEventType, "24hrTicker"),
        (EventType::ForceOrderEventType, "forceOrder"),
        (EventType::BookDepthEventType, "depthUpdate"),
        (EventType::CompositeIndexEventType, "compositeIndex"),
        (EventType::ContractInfoEventType, "contractInfo"),
        (EventType::AssetIndexUpdateEventType, "assetIndexUpdate"),
        (EventType::OrderTradeUpdateEventType, "ORDER_TRADE_UPDATE"),
        (EventType::AccountUpdateEventType, "ACCOUNT_UPDATE"),
        (EventType::MarginCallEventType, "MARGIN_CALL"),
        (EventType::AccountConfigUpdateEventType, "ACCOUNT_CONFIG_UPDATE"),
        (EventType::StrategyUpdateEventType, "STRATEGY_UPDATE"),
        (EventType::GridUpdateEventType, "GRID_UPDATE"),
        (
            EventType::ConditionalOrderTriggerRejectEventType,
            "CONDITIONAL_ORDER_TRIGGER_REJECT",
        ),
    ];
    for (kind, tag) in all {
        assert_eq!(EventType::from_wire_name(tag), Some(kind));
    }
    assert_eq!(EventType::from_wire_name("BookTickerEventType"), None);
    assert_eq!(EventType::from_wire_name("bookticker"), None);
}
