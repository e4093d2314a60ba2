use binance_connect::error::DecodeFailure;
use binance_connect::futures_usd::deserializer::deserialize;
use binance_connect::futures_usd::deserializer::dispatch;
use binance_connect::futures_usd::enums::binance::AccountUpdateReason;
use binance_connect::futures_usd::enums::binance::ContractStatus;
use binance_connect::futures_usd::enums::binance::ContractType;
use binance_connect::futures_usd::enums::binance::ExecutionType;
use binance_connect::futures_usd::enums::binance::KlineContractType;
use binance_connect::futures_usd::enums::binance::KlineInterval;
use binance_connect::futures_usd::enums::binance::MarginType;
use binance_connect::futures_usd::enums::binance::OrderStatus;
use binance_connect::futures_usd::enums::binance::OrderType;
use binance_connect::futures_usd::enums::binance::PositionSide;
use binance_connect::futures_usd::enums::binance::PriceMatch;
use binance_connect::futures_usd::enums::binance::Side;
use binance_connect::futures_usd::enums::binance::StpMode;
use binance_connect::futures_usd::enums::binance::StrategyStatus;
use binance_connect::futures_usd::enums::binance::TimeInForce;
use binance_connect::futures_usd::enums::binance::WorkingType;
use binance_connect::futures_usd::enums::events::Event;
use binance_connect::futures_usd::enums::events::EventCategory;
use binance_connect::futures_usd::enums::events::EventType;
use binance_connect::json::JsonNumber;
use binance_connect::json::JsonValue;

const BOOK_TICKER: &str = r#"{"e":"bookTicker","u":400900217,"E":1568014460893,"T":1568014460891,"s":"BNBUSDT","b":"100.5","B":"31.21000000","a":"25.36520000","A":"40.66000000"}"#;

fn number(text: &str) -> f64 {
    text.parse::<f64>().unwrap()
}

fn failure_of(payload: &str) -> DecodeFailure {
    match deserialize(payload.to_string()) {
        Err(error) => {
            assert_eq!(error.payload, payload);
            error.failure
        }
        Ok(event) => panic!("{:?} was read from {}", event, payload),
    }
}

#[test]
fn book_ticker_fields_equal_the_source_fields() {
    match deserialize(BOOK_TICKER.to_string()) {
        Ok(Event::BookTickerEvent(ticker)) => {
            assert_eq!(ticker.event_type, EventType::BookTickerEventType);
            assert_eq!(ticker.event_time, 1568014460893);
            assert_eq!(ticker.symbol, "BNBUSDT");
            assert_eq!(ticker.update_id, 400900217);
            assert_eq!(number(ticker.bid_price.as_str()), 100.5);
            assert_eq!(number(ticker.bid_quantity.as_str()), 31.21);
            assert_eq!(number(ticker.ask_price.as_str()), 25.3652);
            assert_eq!(number(ticker.ask_quantity.as_str()), 40.66);
            assert_eq!(ticker.bid_price.as_str(), "100.5");
            assert_eq!(ticker.transaction_time, 1568014460891);
        }
        other => panic!("{:?}", other),
    }
}

#[test]
fn members_that_a_record_does_not_name_are_passed_over() {
    let payload = r#"{"e":"bookTicker","extra":[1,2,{"x":null}],"u":1,"E":2,"T":3,"s":"X","b":"1","B":"2","a":"3","A":"4"}"#;
    match deserialize(payload.to_string()) {
        Ok(Event::BookTickerEvent(ticker)) => assert_eq!(ticker.symbol, "X"),
        other => panic!("{:?}", other),
    }
}

#[test]
fn agg_trade_is_read() {
    let payload = r#"{"e":"aggTrade","E":123456789,"s":"BTCUSDT","a":5933014,"p":"0.001","q":"100","f":100,"l":105,"T":123456785,"m":true}"#;
    match deserialize(payload.to_string()) {
        Ok(Event::AggTradeEvent(trade)) => {
            assert_eq!(trade.event_type, EventType::AggTradeEventType);
            assert_eq!(trade.event_time, 123456789);
            assert_eq!(trade.symbol, "BTCUSDT");
            assert_eq!(trade.agg_trade_id, 5933014);
            assert_eq!(number(trade.price.as_str()), 0.001);
            assert_eq!(number(trade.quantity.as_str()), 100.0);
            assert_eq!(trade.first_trade_id, 100);
            assert_eq!(trade.last_trade_id, 105);
            assert_eq!(trade.trade_time, 123456785);
            assert!(trade.buyer_is_market_maker);
        }
        other => panic!("{:?}", other),
    }
}

#[test]
fn mark_price_update_is_read() {
    let payload = r#"{"e":"markPriceUpdate","E":1562305380000,"s":"BTCUSDT","p":"11794.15000000","i":"11784.62659091","P":"11784.25641265","r":"0.00038167","T":1562306400000}"#;
    match deserialize(payload.to_string()) {
        Ok(Event::MarkPriceUpdateEvent(update)) => {
            assert_eq!(update.event_time, 1562305380000);
            assert_eq!(update.symbol, "BTCUSDT");
            assert_eq!(number(update.mark_price.as_str()), 11794.15);
            assert_eq!(number(update.index_price.as_str()), 11784.62659091);
            assert_eq!(number(update.estimated_settle_price.as_str()), 11784.25641265);
            assert_eq!(number(update.funding_rate.as_str()), 0.00038167);
            assert_eq!(update.next_funding_time, 1562306400000);
        }
        other => panic!("{:?}", other),
    }
}

const KLINE_DATA: &str = r#"{"t":1638747660000,"T":1638747719999,"s":"BTCUSDT","i":"1m","f":100,"L":200,"o":"0.0010","c":"0.0020","h":"0.0025","l":"0.0015","v":"1000","n":100,"x":false,"q":"1.0000","V":"500","Q":"0.500","B":"123456"}"#;

#[test]
fn kline_is_read() {
    let payload = format!(
        r#"{{"e":"kline","E":1638747660000,"s":"BTCUSDT","k":{}}}"#,
        KLINE_DATA
    );
    match deserialize(payload) {
        Ok(Event::KlineEvent(kline)) => {
            assert_eq!(kline.event_time, 1638747660000);
            assert_eq!(kline.symbol, "BTCUSDT");
            let data = kline.kline_data;
            assert_eq!(data.kline_start_time, 1638747660000);
            assert_eq!(data.kline_close_time, 1638747719999);
            assert_eq!(data.kline_symbol, "BTCUSDT");
            assert_eq!(data.interval, KlineInterval::Minutes1);
            assert_eq!(data.first_trade_id, 100);
            assert_eq!(data.last_trade_id, 200);
            assert_eq!(number(data.open_price.as_str()), 0.001);
            assert_eq!(number(data.close_price.as_str()), 0.002);
            assert_eq!(number(data.high_price.as_str()), 0.0025);
            assert_eq!(number(data.low_price.as_str()), 0.0015);
            assert_eq!(number(data.base_asset_volume.as_str()), 1000.0);
            assert_eq!(data.number_of_trades, 100);
            assert!(!data.is_kline_closed);
            assert_eq!(number(data.quote_asset_volume.as_str()), 1.0);
            assert_eq!(number(data.taker_buy_base_asset_volume.as_str()), 500.0);
            assert_eq!(number(data.taker_buy_quote_asset_volume.as_str()), 0.5);
        }
        other => panic!("{:?}", other),
    }
}

#[test]
fn continuous_kline_has_no_symbol_in_its_candle() {
    let payload = r#"{"e":"continuous_kline","E":1607443058651,"ps":"BTCUSDT","ct":"PERPETUAL","k":{"t":1607443020000,"T":1607443079999,"i":"1m","f":116467658886,"L":116468012423,"o":"18787.00","c":"18804.04","h":"18804.04","l":"18786.54","v":"197.664","n":543,"x":false,"q":"3715253.19494","V":"184.769","Q":"3472925.84746","B":"0"}}"#;
    match deserialize(payload.to_string()) {
        Ok(Event::ContinuousKlineEvent(kline)) => {
            assert_eq!(kline.pair, "BTCUSDT");
            assert_eq!(kline.contract_type, KlineContractType::Perpetual);
            assert_eq!(kline.kline_data.kline_symbol, "");
            assert_eq!(kline.kline_data.first_trade_id, 116467658886);
            assert_eq!(number(kline.kline_data.close_price.as_str()), 18804.04);
        }
        other => panic!("{:?}", other),
    }
}

const MINI_TICKER: &str = r#"{"e":"24hrMiniTicker","E":123456789,"s":"BTCUSDT","c":"0.0025","o":"0.0010","h":"0.0026","l":"0.0009","v":"10000","q":"18"}"#;

#[test]
fn mini_ticker_is_read() {
    match deserialize(MINI_TICKER.to_string()) {
        Ok(Event::MiniTickerEvent(ticker)) => {
            assert_eq!(ticker.event_type, EventType::MiniTickerEventType);
            assert_eq!(ticker.symbol, "BTCUSDT");
            assert_eq!(number(ticker.close_price.as_str()), 0.0025);
            assert_eq!(number(ticker.open_price.as_str()), 0.001);
            assert_eq!(number(ticker.high_price.as_str()), 0.0026);
            assert_eq!(number(ticker.low_price.as_str()), 0.0009);
            assert_eq!(number(ticker.total_traded_base_asset_volume.as_str()), 10000.0);
            assert_eq!(number(ticker.total_traded_quote_asset_volume.as_str()), 18.0);
        }
        other => panic!("{:?}", other),
    }
}

const TICKER: &str = r#"{"e":"24hrTicker","E":123456789,"s":"BTCUSDT","p":"0.0015","P":"250.00","w":"0.0018","c":"0.0025","Q":"10","o":"0.0010","h":"0.0026","l":"0.0009","v":"10000","q":"18","O":0,"C":86400000,"F":0,"L":18150,"n":18151}"#;

#[test]
fn ticker_is_read() {
    match deserialize(TICKER.to_string()) {
        Ok(Event::TickerEvent(ticker)) => {
            assert_eq!(number(ticker.price_change.as_str()), 0.0015);
            assert_eq!(number(ticker.price_change_percent.as_str()), 250.0);
            assert_eq!(number(ticker.weighted_avg_price.as_str()), 0.0018);
            assert_eq!(number(ticker.last_price.as_str()), 0.0025);
            assert_eq!(number(ticker.last_quantity.as_str()), 10.0);
            assert_eq!(ticker.statistics_open_time, 0);
            assert_eq!(ticker.statistics_close_time, 86400000);
            assert_eq!(ticker.first_trade_id, 0);
            assert_eq!(ticker.last_trade_id, 18150);
            assert_eq!(ticker.total_number_of_trades, 18151);
        }
        other => panic!("{:?}", other),
    }
}

#[test]
fn force_order_is_read() {
    let payload = r#"{"e":"forceOrder","E":1568014460893,"o":{"s":"BTCUSDT","S":"SELL","o":"LIMIT","f":"IOC","q":"0.014","p":"9910","ap":"9910","X":"FILLED","l":"0.014","z":"0.014","T":1568014460893}}"#;
    match deserialize(payload.to_string()) {
        Ok(Event::ForceOrderEvent(liquidation)) => {
            let order = liquidation.order;
            assert_eq!(order.symbol, "BTCUSDT");
            assert_eq!(order.side, Side::Sell);
            assert_eq!(order.order_type, OrderType::Limit);
            assert_eq!(order.time_in_force, TimeInForce::IOC);
            assert_eq!(order.original_quantity, "0.014");
            assert_eq!(number(order.price.as_str()), 9910.0);
            assert_eq!(number(order.average_price.as_str()), 9910.0);
            assert_eq!(order.order_status, OrderStatus::Filled);
            assert_eq!(number(order.order_last_filled_quantity.as_str()), 0.014);
            assert_eq!(number(order.order_filled_accumulated_quantity.as_str()), 0.014);
            assert_eq!(order.order_trade_time, 1568014460893);
        }
        other => panic!("{:?}", other),
    }
}

#[test]
fn book_depth_keeps_the_levels_in_order() {
    let payload = r#"{"e":"depthUpdate","E":123456789,"T":123456788,"s":"BTCUSDT","U":157,"u":160,"pu":149,"b":[["0.0024","10"],["0.0023","0"]],"a":[["0.0026","100"]]}"#;
    match deserialize(payload.to_string()) {
        Ok(Event::BookDepthEvent(depth)) => {
            assert_eq!(depth.first_update_id, 157);
            assert_eq!(depth.final_update_id, 160);
            assert_eq!(depth.previous_final_update_id, 149);
            assert_eq!(depth.bids.len(), 2);
            assert_eq!(number(depth.bids[0].price_level.as_str()), 0.0024);
            assert_eq!(number(depth.bids[0].quantity.as_str()), 10.0);
            assert_eq!(number(depth.bids[1].price_level.as_str()), 0.0023);
            assert_eq!(number(depth.bids[1].quantity.as_str()), 0.0);
            assert_eq!(depth.asks.len(), 1);
            assert_eq!(number(depth.asks[0].price_level.as_str()), 0.0026);
            assert_eq!(number(depth.asks[0].quantity.as_str()), 100.0);
        }
        other => panic!("{:?}", other),
    }
}

#[test]
fn a_price_level_has_two_items() {
    let payload = r#"{"e":"depthUpdate","E":1,"T":1,"s":"BTCUSDT","U":1,"u":1,"pu":1,"b":[["0.0024","10","1"]],"a":[]}"#;
    assert_eq!(
        failure_of(payload),
        DecodeFailure::SchemaMismatch(EventType::BookDepthEventType)
    );
}

#[test]
fn composite_index_is_read() {
    let payload = r#"{"e":"compositeIndex","E":1602310596000,"s":"DEFIUSDT","p":"554.41604065","C":"baseAsset","c":[{"b":"BAL","q":"USDT","w":"1.04884844","W":"0.01457800","i":"24.33521021"},{"b":"BAND","q":"USDT","w":"3.53782729","W":"0.03935200","i":"7.26420084"}]}"#;
    match deserialize(payload.to_string()) {
        Ok(Event::CompositeIndexEvent(index)) => {
            assert_eq!(index.symbol, "DEFIUSDT");
            assert_eq!(number(index.price.as_str()), 554.41604065);
            assert_eq!(index.composition_type, "baseAsset");
            assert_eq!(index.composition.len(), 2);
            assert_eq!(index.composition[0].base_asset, "BAL");
            assert_eq!(index.composition[1].base_asset, "BAND");
            assert_eq!(index.composition[1].quote_asset, "USDT");
            assert_eq!(number(index.composition[1].weight_quantity.as_str()), 3.53782729);
            assert_eq!(number(index.composition[1].weight_percentage.as_str()), 0.039352);
            assert_eq!(number(index.composition[1].index_price.as_str()), 7.26420084);
        }
        other => panic!("{:?}", other),
    }
}

#[test]
fn contract_info_is_read() {
    let payload = r#"{"e":"contractInfo","E":1669647330375,"s":"APTUSDT","ps":"APTUSDT","ct":"PERPETUAL","dt":4133404800000,"ot":1666594800000,"cs":"TRADING","bks":[{"bs":1,"bnf":0,"bnc":5000,"mmr":"0.01","cf":0,"mi":21,"ma":50}]}"#;
    match deserialize(payload.to_string()) {
        Ok(Event::ContractInfoEvent(info)) => {
            assert_eq!(info.symbol, "APTUSDT");
            assert_eq!(info.pair, "APTUSDT");
            assert_eq!(info.contract_type, ContractType::Perpetual);
            assert_eq!(info.delivery_date_time, 4133404800000);
            assert_eq!(info.onboard_date_time, 1666594800000);
            assert_eq!(info.contract_status, ContractStatus::Trading);
            assert_eq!(info.brackets.len(), 1);
            assert_eq!(info.brackets[0].notional_bracket, 1);
            assert_eq!(info.brackets[0].floor_notional, 0);
            assert_eq!(info.brackets[0].cap_notional, 5000);
            assert_eq!(number(info.brackets[0].maintenance_ratio.as_str()), 0.01);
            assert_eq!(info.brackets[0].auxiliary_number, 0);
            assert_eq!(info.brackets[0].min_leverage, 21);
            assert_eq!(info.brackets[0].max_leverage, 50);
        }
        other => panic!("{:?}", other),
    }
}

#[test]
fn a_leverage_beyond_32_bits_does_not_fit() {
    let payload = r#"{"e":"contractInfo","E":1,"s":"A","ps":"A","ct":"PERPETUAL","dt":1,"ot":1,"cs":"TRADING","bks":[{"bs":1,"bnf":0,"bnc":5000,"mmr":"0.01","cf":0,"mi":21,"ma":2147483648}]}"#;
    assert_eq!(
        failure_of(payload),
        DecodeFailure::SchemaMismatch(EventType::ContractInfoEventType)
    );
    let fitting = payload.replace("2147483648", "2147483647");
    assert!(deserialize(fitting).is_ok());
    let lowest = payload.replace("2147483648", "-2147483648");
    assert!(deserialize(lowest).is_ok());
    let below = payload.replace("2147483648", "-2147483649");
    assert!(deserialize(below).is_err());
}

const ASSET_INDEX: &str = r#"{"e":"assetIndexUpdate","E":1686749230000,"s":"ADAUSD","i":"0.27462452","b":"0.10000000","a":"0.10000000","B":"0.24716207","A":"0.30208698","q":"0.05000000","g":"0.05000000","Q":"0.26089330","G":"0.28835575"}"#;

#[test]
fn asset_index_update_is_read() {
    match deserialize(ASSET_INDEX.to_string()) {
        Ok(Event::AssetIndexUpdateEvent(update)) => {
            assert_eq!(update.asset_index_symbol, "ADAUSD");
            assert_eq!(number(update.index_price.as_str()), 0.27462452);
            assert_eq!(number(update.bid_buffer.as_str()), 0.1);
            assert_eq!(number(update.ask_buffer.as_str()), 0.1);
            assert_eq!(number(update.bid_rate.as_str()), 0.24716207);
            assert_eq!(number(update.ask_rate.as_str()), 0.30208698);
            assert_eq!(number(update.auto_exchange_bid_buffer.as_str()), 0.05);
            assert_eq!(number(update.auto_exchange_ask_buffer.as_str()), 0.05);
            assert_eq!(number(update.auto_exchange_bid_rate.as_str()), 0.2608933);
            assert_eq!(number(update.auto_exchange_ask_rate.as_str()), 0.28835575);
        }
        other => panic!("{:?}", other),
    }
}

const ORDER_TRADE_UPDATE: &str = r#"{"e":"ORDER_TRADE_UPDATE","E":1568879465651,"T":1568879465650,"o":{"s":"BTCUSDT","c":"TEST","S":"SELL","o":"TRAILING_STOP_MARKET","f":"GTC","q":"0.001","p":"0","ap":"0","sp":"7103.04","x":"NEW","X":"NEW","i":8886774,"l":"0","z":"0","L":"0","N":"USDT","n":"0.5","T":1568879465650,"t":0,"b":"0","a":"9.91","m":false,"R":false,"wt":"CONTRACT_PRICE","ot":"TRAILING_STOP_MARKET","ps":"LONG","cp":true,"AP":"7476.89","cr":"5.0","pP":false,"si":0,"ss":0,"rp":"0","V":"EXPIRE_TAKER","pm":"OPPONENT","gtd":0}}"#;

#[test]
fn order_trade_update_is_read() {
    match deserialize(ORDER_TRADE_UPDATE.to_string()) {
        Ok(Event::OrderTradeUpdateEvent(update)) => {
            assert_eq!(update.event_time, 1568879465651);
            assert_eq!(update.transaction_time, 1568879465650);
            let order = update.order_data;
            assert_eq!(order.symbol, "BTCUSDT");
            assert_eq!(order.client_order_id, "TEST");
            assert_eq!(order.side, Side::Sell);
            assert_eq!(order.order_type, OrderType::TrailingStopMarket);
            assert_eq!(order.time_in_force, TimeInForce::GTC);
            assert_eq!(number(order.original_quantity.as_str()), 0.001);
            assert_eq!(number(order.stop_price.as_str()), 7103.04);
            assert_eq!(order.execution_type, ExecutionType::New);
            assert_eq!(order.order_status, OrderStatus::New);
            assert_eq!(order.order_id, 8886774);
            assert_eq!(order.commission_asset, "USDT");
            assert_eq!(number(order.commission.as_str()), 0.5);
            assert_eq!(number(order.ask_notional.as_str()), 9.91);
            assert_eq!(order.stop_price_working_type, WorkingType::ContractPrice);
            assert_eq!(order.original_order_type, OrderType::TrailingStopMarket);
            assert_eq!(order.position_side, PositionSide::Long);
            assert!(order.is_close_all);
            assert_eq!(number(order.activation_price.as_str()), 7476.89);
            assert_eq!(number(order.callback_rate.as_str()), 5.0);
            assert!(!order.is_price_protection_enabled);
            assert_eq!(order.stp_mode, StpMode::ExpireTaker);
            assert_eq!(order.price_match_mode, PriceMatch::Opponent);
            assert_eq!(order.gtd_order_auto_cancel_time, 0);
        }
        other => panic!("{:?}", other),
    }
}

#[test]
fn missing_members_with_a_default_read_as_the_default() {
    let payload = ORDER_TRADE_UPDATE
        .replace(r#""N":"USDT","n":"0.5","#, "")
        .replace(r#""cp":true,"AP":"7476.89","cr":"5.0","#, "");
    match deserialize(payload) {
        Ok(Event::OrderTradeUpdateEvent(update)) => {
            let order = update.order_data;
            assert_eq!(order.commission_asset, "");
            assert_eq!(order.commission.as_str(), "0");
            assert_eq!(number(order.commission.as_str()), 0.0);
            assert!(!order.is_close_all);
            assert_eq!(number(order.activation_price.as_str()), 0.0);
            assert_eq!(number(order.callback_rate.as_str()), 0.0);
        }
        other => panic!("{:?}", other),
    }
}

#[test]
fn a_member_with_a_default_may_not_be_null() {
    let payload = ORDER_TRADE_UPDATE.replace(r#""cp":true"#, r#""cp":null"#);
    assert_eq!(
        failure_of(&payload),
        DecodeFailure::SchemaMismatch(EventType::OrderTradeUpdateEventType)
    );
}

#[test]
fn account_update_is_read() {
    let payload = r#"{"e":"ACCOUNT_UPDATE","E":1564745798939,"T":1564745798938,"a":{"m":"ORDER","B":[{"a":"USDT","wb":"122624.12345678","cw":"100.12345678","bc":"50.12345678"},{"a":"BUSD","wb":"1.00000000","cw":"0.00000000","bc":"-49.12345678"}],"P":[{"s":"BTCUSDT","pa":"0","ep":"0.00000","bep":"0","cr":"200","up":"0","mt":"isolated","iw":"0.00000000","ps":"BOTH"},{"s":"BTCUSDT","pa":"20","ep":"6563.66500","bep":"6563.6","cr":"0","up":"2850.21200","mt":"crossed","iw":"13200.70726908","ps":"LONG"}]}}"#;
    match deserialize(payload.to_string()) {
        Ok(Event::AccountUpdateEvent(update)) => {
            let data = update.update_data;
            assert_eq!(data.event_reason_type, AccountUpdateReason::Order);
            assert_eq!(data.balances.len(), 2);
            assert_eq!(data.balances[0].asset, "USDT");
            assert_eq!(number(data.balances[0].wallet_balance.as_str()), 122624.12345678);
            assert_eq!(number(data.balances[0].cross_wallet_balance.as_str()), 100.12345678);
            assert_eq!(number(data.balances[0].balance_change.as_str()), 50.12345678);
            assert_eq!(data.balances[1].asset, "BUSD");
            assert_eq!(number(data.balances[1].balance_change.as_str()), -49.12345678);
            assert_eq!(data.positions.len(), 2);
            assert_eq!(data.positions[0].margin_type, MarginType::Isolated);
            assert_eq!(data.positions[0].position_side, PositionSide::Both);
            assert_eq!(number(data.positions[0].accumulated_realized.as_str()), 200.0);
            assert_eq!(data.positions[1].margin_type, MarginType::Crossed);
            assert_eq!(data.positions[1].position_side, PositionSide::Long);
            assert_eq!(number(data.positions[1].position_amount.as_str()), 20.0);
            assert_eq!(number(data.positions[1].entry_price.as_str()), 6563.665);
            assert_eq!(number(data.positions[1].breakeven_price.as_str()), 6563.6);
            assert_eq!(number(data.positions[1].unrealized_pnl.as_str()), 2850.212);
            assert_eq!(number(data.positions[1].isolated_wallet.as_str()), 13200.70726908);
        }
        other => panic!("{:?}", other),
    }
}

#[test]
fn margin_call_is_read() {
    let payload = r#"{"e":"MARGIN_CALL","E":1587727187525,"cw":"3.16812045","p":[{"s":"ETHUSDT","ps":"LONG","pa":"1.327","mt":"crossed","iw":"0","mp":"187.17127","up":"-1.166074","mm":"1.614445"}]}"#;
    match deserialize(payload.to_string()) {
        Ok(Event::MarginCallEvent(call)) => {
            assert_eq!(number(call.cross_wallet_balance.as_str()), 3.16812045);
            assert_eq!(call.positions.len(), 1);
            let position = &call.positions[0];
            assert_eq!(position.symbol, "ETHUSDT");
            assert_eq!(position.position_side, PositionSide::Long);
            assert_eq!(number(position.position_amount.as_str()), 1.327);
            assert_eq!(position.margin_type, MarginType::Crossed);
            assert_eq!(number(position.isolated_wallet.as_str()), 0.0);
            assert_eq!(number(position.mark_price.as_str()), 187.17127);
            assert_eq!(number(position.unrealized_pnl.as_str()), -1.166074);
            assert_eq!(number(position.maintenance_margin_required.as_str()), 1.614445);
        }
        other => panic!("{:?}", other),
    }
}

#[test]
fn account_config_update_holds_what_changed() {
    let leverage = r#"{"e":"ACCOUNT_CONFIG_UPDATE","E":1611646737479,"T":1611646737476,"ac":{"s":"BTCUSDT","l":25}}"#;
    match deserialize(leverage.to_string()) {
        Ok(Event::AccountConfigUpdateEvent(update)) => {
            let config = update.account_config.unwrap();
            assert_eq!(config.symbol, "BTCUSDT");
            assert_eq!(config.leverage, 25);
            assert!(update.account_info.is_none());
        }
        other => panic!("{:?}", other),
    }
    let mode = r#"{"e":"ACCOUNT_CONFIG_UPDATE","E":1611646737479,"T":1611646737476,"ac":null,"ai":{"j":true}}"#;
    match deserialize(mode.to_string()) {
        Ok(Event::AccountConfigUpdateEvent(update)) => {
            assert!(update.account_config.is_none());
            assert_eq!(update.account_info.unwrap().multi_assets_mode, Some(true));
        }
        other => panic!("{:?}", other),
    }
    let empty = r#"{"e":"ACCOUNT_CONFIG_UPDATE","E":1,"T":2,"ai":{}}"#;
    match deserialize(empty.to_string()) {
        Ok(Event::AccountConfigUpdateEvent(update)) => {
            assert_eq!(update.account_info.unwrap().multi_assets_mode, None);
        }
        other => panic!("{:?}", other),
    }
    let wrong = r#"{"e":"ACCOUNT_CONFIG_UPDATE","E":1,"T":2,"ai":7}"#;
    assert_eq!(
        failure_of(wrong),
        DecodeFailure::SchemaMismatch(EventType::AccountConfigUpdateEventType)
    );
}

#[test]
fn strategy_update_is_read() {
    let payload = r#"{"e":"STRATEGY_UPDATE","T":1669261797627,"E":1669261797628,"su":{"si":176054594,"st":"GRID","ss":"NEW","s":"BTCUSDT","ut":1669261797627,"c":8007}}"#;
    match deserialize(payload.to_string()) {
        Ok(Event::StrategyUpdateEvent(update)) => {
            assert_eq!(update.transaction_time, 1669261797627);
            assert_eq!(update.event_time, 1669261797628);
            assert_eq!(update.strategy.strategy_id, 176054594);
            assert_eq!(update.strategy.strategy_type, "GRID");
            assert_eq!(update.strategy.strategy_status, StrategyStatus::New);
            assert_eq!(update.strategy.symbol, "BTCUSDT");
            assert_eq!(update.strategy.update_time, 1669261797627);
            assert_eq!(update.strategy.op_code, 8007);
        }
        other => panic!("{:?}", other),
    }
}

#[test]
fn grid_update_is_read() {
    let payload = r#"{"e":"GRID_UPDATE","T":1669262908216,"E":1669262908218,"gu":{"si":176057039,"st":"GRID","ss":"WORKING","s":"BTCUSDT","r":"-0.00300716","up":"16720","uq":"-0.001","uf":"-0.00300716","mp":"0.0","ut":1669262908197}}"#;
    match deserialize(payload.to_string()) {
        Ok(Event::GridUpdateEvent(update)) => {
            assert_eq!(update.grid.strategy_id, 176057039);
            assert_eq!(update.grid.strategy_status, StrategyStatus::Working);
            assert_eq!(number(update.grid.realized_pnl.as_str()), -0.00300716);
            assert_eq!(number(update.grid.unmatched_average_price.as_str()), 16720.0);
            assert_eq!(number(update.grid.unmatched_qty.as_str()), -0.001);
            assert_eq!(number(update.grid.unmatched_fee.as_str()), -0.00300716);
            assert_eq!(number(update.grid.matched_pnl.as_str()), 0.0);
            assert_eq!(update.grid.update_time, 1669262908197);
        }
        other => panic!("{:?}", other),
    }
}

#[test]
fn conditional_order_trigger_reject_is_read() {
    let payload = r#"{"e":"CONDITIONAL_ORDER_TRIGGER_REJECT","E":1685517224945,"T":1685517224955,"or":{"s":"ETHUSDT","i":155618472834,"r":"Due to the order could not be filled immediately, the FOK order has been rejected."}}"#;
    match deserialize(payload.to_string()) {
        Ok(Event::ConditionalOrderTriggerRejectEvent(reject)) => {
            assert_eq!(reject.event_time, 1685517224945);
            assert_eq!(reject.message_send_time, 1685517224955);
            assert_eq!(reject.order_reject.symbol, "ETHUSDT");
            assert_eq!(reject.order_reject.order_id, 155618472834);
            assert!(reject.order_reject.reject_reason.starts_with("Due to the order"));
        }
        other => panic!("{:?}", other),
    }
}

#[test]
fn an_acknowledgement_is_read_with_and_without_an_id() {
    for payload in [
        r#"{"result":null,"id":1}"#,
        r#"{"result":null}"#,
        r#"{"id":null}"#,
        r#"{"result":["btcusdt@aggTrade"],"id":18446744073709551615}"#,
        r#"{}"#,
        r#"{"unrelated":true}"#,
        r#"{"e":7}"#,
    ] {
        match deserialize(payload.to_string()) {
            Ok(Event::SubscribeResponseEvent) => {}
            other => panic!("{} gave {:?}", payload, other),
        }
    }
}

#[test]
fn an_id_that_is_no_unsigned_integer_is_no_acknowledgement() {
    for payload in [r#"{"id":-1}"#, r#"{"id":"1"}"#, r#"{"id":1.5}"#, r#"{"id":18446744073709551616}"#]
    {
        assert_eq!(failure_of(payload), DecodeFailure::NoDeserializer);
    }
}

#[test]
fn an_acknowledgement_is_neither_market_nor_account_data() {
    let ack = deserialize(r#"{"result":null,"id":1}"#.to_string()).unwrap();
    assert_eq!(ack.category(), EventCategory::Acknowledgement);
    let market = deserialize(BOOK_TICKER.to_string()).unwrap();
    assert_eq!(market.category(), EventCategory::MarketData);
    let user = deserialize(ORDER_TRADE_UPDATE.to_string()).unwrap();
    assert_eq!(user.category(), EventCategory::AccountData);
}

#[test]
fn a_tagged_object_is_decided_by_its_tag_first() {
    // Also an acknowledgement by its shape: the tag wins.
    let payload = r#"{"e":"bookTicker","id":1,"result":null,"u":1,"E":2,"T":3,"s":"X","b":"1","B":"2","a":"3","A":"4"}"#;
    match deserialize(payload.to_string()) {
        Ok(Event::BookTickerEvent(ticker)) => assert_eq!(ticker.update_id, 1),
        other => panic!("{:?}", other),
    }
    // A tagged object that is not what its tag says is an error, not an
    // acknowledgement.
    let broken = r#"{"e":"bookTicker","id":1,"result":null}"#;
    assert_eq!(
        failure_of(broken),
        DecodeFailure::SchemaMismatch(EventType::BookTickerEventType)
    );
}

#[test]
fn an_unknown_tag_is_an_error() {
    let payload = r#"{"e":"somethingNew","E":1,"id":1}"#;
    assert_eq!(failure_of(payload), DecodeFailure::UnknownEventType);
}

#[test]
fn mark_price_batch_keeps_every_item_in_order() {
    let items = [
        r#"{"e":"markPriceUpdate","E":1,"s":"AAA","p":"1","i":"1","P":"1","r":"0.1","T":10}"#,
        r#"{"e":"markPriceUpdate","E":2,"s":"BBB","p":"2","i":"2","P":"2","r":"0.2","T":20}"#,
        r#"{"e":"markPriceUpdate","E":3,"s":"CCC","p":"3","i":"3","P":"3","r":"0.3","T":30}"#,
    ];
    let payload = format!("[{}]", items.join(","));
    match deserialize(payload) {
        Ok(Event::MarkPriceUpdatesEvent(batch)) => {
            assert_eq!(batch.data.len(), 3);
            assert_eq!(batch.data[0].symbol, "AAA");
            assert_eq!(batch.data[1].symbol, "BBB");
            assert_eq!(batch.data[2].symbol, "CCC");
            assert_eq!(batch.data[0].event_time, 1);
            assert_eq!(batch.data[2].next_funding_time, 30);
            assert_eq!(number(batch.data[1].funding_rate.as_str()), 0.2);
        }
        other => panic!("{:?}", other),
    }
}

#[test]
fn every_batch_kind_is_read() {
    match deserialize(format!("[{}]", MINI_TICKER)) {
        Ok(Event::MiniTickersEvent(batch)) => assert_eq!(batch.data.len(), 1),
        other => panic!("{:?}", other),
    }
    match deserialize(format!("[{},{}]", TICKER, TICKER)) {
        Ok(Event::TickersEvent(batch)) => assert_eq!(batch.data.len(), 2),
        other => panic!("{:?}", other),
    }
    match deserialize(format!("[{}]", BOOK_TICKER)) {
        Ok(Event::BookTickersEvent(batch)) => {
            assert_eq!(batch.data.len(), 1);
            assert_eq!(batch.data[0].symbol, "BNBUSDT");
        }
        other => panic!("{:?}", other),
    }
    match deserialize(format!("[{},{},{},{}]", ASSET_INDEX, ASSET_INDEX, ASSET_INDEX, ASSET_INDEX))
    {
        Ok(Event::AssetIndexUpdatesEvent(batch)) => assert_eq!(batch.data.len(), 4),
        other => panic!("{:?}", other),
    }
}

#[test]
fn the_first_item_decides_the_batch() {
    let payload = format!("[{},{}]", MINI_TICKER, BOOK_TICKER);
    assert_eq!(
        failure_of(&payload),
        DecodeFailure::SchemaMismatch(EventType::MiniTickerEventType)
    );
    // A ticker has every member of a mini ticker: it is read as one, and
    // keeps its own tag.
    let payload = format!("[{},{}]", MINI_TICKER, TICKER);
    match deserialize(payload) {
        Ok(Event::MiniTickersEvent(batch)) => {
            assert_eq!(batch.data.len(), 2);
            assert_eq!(batch.data[0].event_type, EventType::MiniTickerEventType);
            assert_eq!(batch.data[1].event_type, EventType::TickerEventType);
        }
        other => panic!("{:?}", other),
    }
}

#[test]
fn an_array_of_another_event_falls_through() {
    let payload = format!("[{}]", ORDER_TRADE_UPDATE);
    assert_eq!(failure_of(&payload), DecodeFailure::NoDeserializer);
    assert_eq!(failure_of("[]"), DecodeFailure::NoDeserializer);
    assert_eq!(failure_of("[1,2]"), DecodeFailure::NoDeserializer);
    assert_eq!(failure_of(r#"[{"e":"somethingNew"}]"#), DecodeFailure::NoDeserializer);
}

#[test]
fn a_payload_of_no_known_shape_is_an_error_that_holds_it() {
    for payload in ["", "not json", "42", "\"text\"", "null", "true", "{\"e\":\"bookTicker\""] {
        assert_eq!(failure_of(payload), DecodeFailure::NoDeserializer);
    }
}

#[test]
fn a_decimal_that_is_no_number_does_not_fit() {
    let payload = BOOK_TICKER.replace("100.5", "abc");
    assert_eq!(
        failure_of(&payload),
        DecodeFailure::SchemaMismatch(EventType::BookTickerEventType)
    );
    let unquoted = BOOK_TICKER.replace("\"100.5\"", "100.5");
    assert_eq!(
        failure_of(&unquoted),
        DecodeFailure::SchemaMismatch(EventType::BookTickerEventType)
    );
}

#[test]
fn a_negative_time_does_not_fit_an_unsigned_member() {
    let payload = BOOK_TICKER.replace("1568014460893", "-5");
    assert_eq!(
        failure_of(&payload),
        DecodeFailure::SchemaMismatch(EventType::BookTickerEventType)
    );
}

#[test]
fn dispatch_decides_on_the_document_alone() {
    let document = JsonValue::Object(vec![
        ("e".to_string(), JsonValue::String("ACCOUNT_CONFIG_UPDATE".to_string())),
        (
            "E".to_string(),
            JsonValue::Number(JsonNumber { unsigned: Some(5), signed: Some(5) }),
        ),
        (
            "T".to_string(),
            JsonValue::Number(JsonNumber { unsigned: None, signed: Some(-6) }),
        ),
    ]);
    match dispatch(Some(&document), "raw") {
        Ok(Event::AccountConfigUpdateEvent(update)) => {
            assert_eq!(update.event_time, 5);
            assert_eq!(update.transaction_time, -6);
        }
        other => panic!("{:?}", other),
    }
    let error = dispatch(None, "raw").unwrap_err();
    assert_eq!(error.failure, DecodeFailure::NoDeserializer);
    assert_eq!(error.payload, "raw");
    let ack = dispatch(Some(&JsonValue::Object(vec![])), "raw");
    assert_eq!(ack, Ok(Event::SubscribeResponseEvent));
    let array = dispatch(Some(&JsonValue::Array(vec![])), "raw").unwrap_err();
    assert_eq!(array.failure, DecodeFailure::NoDeserializer);
}
