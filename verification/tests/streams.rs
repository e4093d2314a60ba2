use binance_connect::futures_usd::enums::binance::BookDepthUpdateSpeed;
use binance_connect::futures_usd::enums::binance::KlineContractType;
use binance_connect::futures_usd::enums::binance::KlineInterval;
use binance_connect::futures_usd::enums::binance::MarkPriceUpdateSpeed;
use binance_connect::futures_usd::enums::binance::PartialBookDepthLevel;
use binance_connect::futures_usd::enums::streams::Streams;

#[test]
fn book_ticker_name_is_the_lowered_symbol_and_the_kind() {
    let stream = Streams::book_ticker("BTCUSDT");
    assert_eq!(stream.to_str(), "btcusdt@bookTicker");
    assert_eq!(stream, Streams::BookTicker("btcusdt@bookTicker".to_string()));
}

#[test]
fn same_inputs_give_the_same_name() {
    let first = Streams::partial_book_depth(
        "EthUsdt",
        PartialBookDepthLevel::Ten,
        BookDepthUpdateSpeed::Millis100,
    );
    let second = Streams::partial_book_depth(
        "EthUsdt",
        PartialBookDepthLevel::Ten,
        BookDepthUpdateSpeed::Millis100,
    );
    assert_eq!(first, second);
    assert_eq!(first.to_str(), "ethusdt@depth10@100ms");
}

#[test]
fn symbol_case_does_not_change_the_name() {
    assert_eq!(Streams::agg_trade("btcusdt"), Streams::agg_trade("BtcUsdT"));
    assert_eq!(Streams::agg_trade("BTCUSDT").to_str(), "btcusdt@aggTrade");
}

#[test]
fn symbol_is_lowered_beyond_ascii() {
    assert_eq!(Streams::ticker("ÄBC").to_str(), "äbc@ticker");
}

#[test]
fn streams_of_every_symbol_have_fixed_names() {
    assert_eq!(Streams::book_tickers().to_str(), "!bookTicker");
    assert_eq!(Streams::mini_tickers().to_str(), "!miniTicker@arr");
    assert_eq!(Streams::tickers().to_str(), "!ticker@arr");
    assert_eq!(Streams::force_orders().to_str(), "!forceOrder@arr");
    assert_eq!(Streams::contract_info().to_str(), "!contractInfo");
    assert_eq!(Streams::asset_index_updates().to_str(), "!assetIndex@arr");
    assert_eq!(Streams::book_tickers(), Streams::BookTickers("!bookTicker".to_string()));
    assert_eq!(Streams::mini_tickers(), Streams::MiniTickers("!miniTicker@arr".to_string()));
    assert_eq!(Streams::tickers(), Streams::Tickers("!ticker@arr".to_string()));
    assert_eq!(Streams::force_orders(), Streams::ForceOrders("!forceOrder@arr".to_string()));
    assert_eq!(Streams::contract_info(), Streams::ContractInfo("!contractInfo".to_string()));
    assert_eq!(
        Streams::asset_index_updates(),
        Streams::AssetIndexUpdates("!assetIndex@arr".to_string())
    );
}

#[test]
fn streams_of_one_symbol_append_their_kind() {
    assert_eq!(Streams::mini_ticker("BNBUSDT").to_str(), "bnbusdt@miniTicker");
    assert_eq!(Streams::ticker("BNBUSDT").to_str(), "bnbusdt@ticker");
    assert_eq!(Streams::force_order("BNBUSDT").to_str(), "bnbusdt@forceOrder");
    assert_eq!(Streams::composite_index("DEFIUSDT").to_str(), "defiusdt@compositeIndex");
    assert_eq!(Streams::asset_index_update("BTCUSD").to_str(), "btcusd@assetIndex");
    assert_eq!(Streams::mini_ticker("x"), Streams::MiniTicker("x@miniTicker".to_string()));
    assert_eq!(Streams::ticker("x"), Streams::Ticker("x@ticker".to_string()));
    assert_eq!(Streams::force_order("x"), Streams::ForceOrder("x@forceOrder".to_string()));
    assert_eq!(
        Streams::composite_index("x"),
        Streams::CompositeIndex("x@compositeIndex".to_string())
    );
    assert_eq!(
        Streams::asset_index_update("x"),
        Streams::AssetIndexUpdate("x@assetIndex".to_string())
    );
}

#[test]
fn mark_price_leaves_out_the_default_speed() {
    assert_eq!(
        Streams::mark_price_update("BTCUSDT", MarkPriceUpdateSpeed::Seconds3).to_str(),
        "btcusdt@markPrice"
    );
    assert_eq!(
        Streams::mark_price_update("BTCUSDT", MarkPriceUpdateSpeed::Seconds1).to_str(),
        "btcusdt@markPrice@1s"
    );
    assert_eq!(
        Streams::mark_price_updates(MarkPriceUpdateSpeed::Seconds3).to_str(),
        "!markPrice@arr"
    );
    assert_eq!(
        Streams::mark_price_updates(MarkPriceUpdateSpeed::Seconds1).to_str(),
        "!markPrice@arr@1s"
    );
    assert_eq!(
        Streams::mark_price_updates(MarkPriceUpdateSpeed::Seconds1),
        Streams::MarkPriceUpdates("!markPrice@arr@1s".to_string())
    );
    assert_eq!(
        Streams::mark_price_update("a", MarkPriceUpdateSpeed::Seconds3),
        Streams::MarkPriceUpdate("a@markPrice".to_string())
    );
}

#[test]
fn book_depth_leaves_out_the_default_speed() {
    assert_eq!(
        Streams::book_depth("BTCUSDT", BookDepthUpdateSpeed::Millis250).to_str(),
        "btcusdt@depth"
    );
    assert_eq!(
        Streams::book_depth("BTCUSDT", BookDepthUpdateSpeed::Millis500).to_str(),
        "btcusdt@depth@500ms"
    );
    assert_eq!(
        Streams::book_depth("BTCUSDT", BookDepthUpdateSpeed::Millis100).to_str(),
        "btcusdt@depth@100ms"
    );
    assert_eq!(
        Streams::partial_book_depth(
            "BTCUSDT",
            PartialBookDepthLevel::Five,
            BookDepthUpdateSpeed::Millis250
        )
        .to_str(),
        "btcusdt@depth5"
    );
    assert_eq!(
        Streams::partial_book_depth(
            "BTCUSDT",
            PartialBookDepthLevel::Twenty,
            BookDepthUpdateSpeed::Millis500
        )
        .to_str(),
        "btcusdt@depth20@500ms"
    );
    assert_eq!(
        Streams::book_depth("a", BookDepthUpdateSpeed::Millis250),
        Streams::BookDepth("a@depth".to_string())
    );
    assert_eq!(
        Streams::partial_book_depth(
            "a",
            PartialBookDepthLevel::Five,
            BookDepthUpdateSpeed::Millis250
        ),
        Streams::PartialBookDepth("a@depth5".to_string())
    );
}

#[test]
fn candle_streams_name_their_interval() {
    assert_eq!(Streams::kline("BTCUSDT", KlineInterval::Minutes1).to_str(), "btcusdt@kline_1m");
    assert_eq!(Streams::kline("BTCUSDT", KlineInterval::Months1).to_str(), "btcusdt@kline_1M");
    assert_eq!(
        Streams::continuous_kline(
            "BTCUSDT",
            KlineContractType::Perpetual,
            KlineInterval::Hours4
        )
        .to_str(),
        "btcusdt_perpetual@continuousKline_4h"
    );
    assert_eq!(
        Streams::continuous_kline(
            "BTCUSDT",
            KlineContractType::NextQuarter,
            KlineInterval::Days3
        )
        .to_str(),
        "btcusdt_next_quarter@continuousKline_3d"
    );
    assert_eq!(
        Streams::kline("a", KlineInterval::Weeks1),
        Streams::Kline("a@kline_1w".to_string())
    );
    assert_eq!(
        Streams::continuous_kline("a", KlineContractType::CurrentQuarter, KlineInterval::Hours1),
        Streams::ContinuousKline("a_current_quarter@continuousKline_1h".to_string())
    );
}

#[test]
fn empty_symbol_leaves_the_kind_alone() {
    assert_eq!(Streams::book_ticker("").to_str(), "@bookTicker");
}
