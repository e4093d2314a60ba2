use binance_connect::error::BinanceConnectError;
use binance_connect::error::DecodeFailure;
use binance_connect::error::Severity;
use binance_connect::futures_usd::client::ConnectionWorker;
use binance_connect::futures_usd::client::WorkerAction;
use binance_connect::futures_usd::client::WorkerEvent;
use binance_connect::futures_usd::client::WorkerState;
use binance_connect::futures_usd::enums::events::Event;
use binance_connect::futures_usd::stream::WouldBlockConfig;
use std::time::Duration;

const URL: &str = "wss://fstream.binance.com/ws/btcusdt@bookTicker";
const PAYLOAD: &str = r#"{"method":"SUBSCRIBE","params":["a@ticker","b@ticker"],"id":1}"#;

fn worker(state: WorkerState, reconnect: bool, error_on_block: bool) -> ConnectionWorker {
    ConnectionWorker {
        url: URL.to_string(),
        subscribe_payload: Some(PAYLOAD.to_string()),
        would_block_config: WouldBlockConfig {
            time_out: Duration::from_millis(25),
            error_on_block,
        },
        reconnect,
        state,
    }
}

fn same_session(worker: &ConnectionWorker) {
    assert_eq!(worker.url, URL);
    assert_eq!(worker.subscribe_payload.as_deref(), Some(PAYLOAD));
    assert_eq!(worker.would_block_config.time_out, Duration::from_millis(25));
}

fn every_event() -> Vec<WorkerEvent> {
    vec![
        WorkerEvent::Connected,
        WorkerEvent::Sent,
        WorkerEvent::Text("{}".to_string()),
        WorkerEvent::Ping(vec![1, 2]),
        WorkerEvent::OtherFrame,
        WorkerEvent::WouldBlock("would block".to_string()),
        WorkerEvent::TransportFailure("reset".to_string()),
        WorkerEvent::Forwarded,
        WorkerEvent::QueueClosed(Event::SubscribeResponseEvent),
        WorkerEvent::Woke,
    ]
}

#[test]
fn a_connection_begins_by_connecting() {
    assert_eq!(
        worker(WorkerState::Connecting, true, false).begin(),
        WorkerAction::Connect(URL.to_string())
    );
    assert_eq!(worker(WorkerState::Reading, true, false).begin(), WorkerAction::Read);
    assert_eq!(
        worker(WorkerState::Reconnecting, true, false).begin(),
        WorkerAction::Sleep(Duration::from_millis(100))
    );
    assert_eq!(worker(WorkerState::Terminated, true, false).begin(), WorkerAction::Finish);
}

#[test]
fn an_open_socket_gets_the_subscription_first() {
    let mut with_payload = worker(WorkerState::Connecting, true, false);
    assert_eq!(
        with_payload.step(WorkerEvent::Connected, false),
        WorkerAction::SendText(PAYLOAD.to_string())
    );
    assert_eq!(with_payload.state, WorkerState::Reading);
    assert_eq!(with_payload.step(WorkerEvent::Sent, false), WorkerAction::Read);
    assert_eq!(with_payload.state, WorkerState::Reading);

    let mut without = worker(WorkerState::Connecting, true, false);
    without.subscribe_payload = None;
    assert_eq!(without.step(WorkerEvent::Connected, false), WorkerAction::Read);
    assert_eq!(without.state, WorkerState::Reading);
}

#[test]
fn a_text_frame_becomes_an_event_for_the_queue() {
    let mut reading = worker(WorkerState::Reading, true, false);
    let action = reading.step(WorkerEvent::Text(r#"{"result":null,"id":1}"#.to_string()), false);
    assert_eq!(action, WorkerAction::Forward(Event::SubscribeResponseEvent));
    assert_eq!(reading.state, WorkerState::Reading);
    assert_eq!(reading.step(WorkerEvent::Forwarded, false), WorkerAction::Read);
    assert_eq!(reading.state, WorkerState::Reading);
    same_session(&reading);
}

#[test]
fn events_are_handed_over_in_the_order_of_their_frames() {
    let mut reading = worker(WorkerState::Reading, true, false);
    let mut symbols = Vec::new();
    for symbol in ["AAA", "BBB", "CCC"] {
        let payload = format!(
            r#"{{"e":"bookTicker","u":1,"E":2,"T":3,"s":"{}","b":"1","B":"2","a":"3","A":"4"}}"#,
            symbol
        );
        match reading.step(WorkerEvent::Text(payload), false) {
            WorkerAction::Forward(Event::BookTickerEvent(ticker)) => symbols.push(ticker.symbol),
            other => panic!("{:?}", other),
        }
        assert_eq!(reading.step(WorkerEvent::Forwarded, false), WorkerAction::Read);
    }
    assert_eq!(symbols, vec!["AAA", "BBB", "CCC"]);
}

#[test]
fn a_ping_is_answered_with_its_own_content() {
    let mut reading = worker(WorkerState::Reading, true, false);
    assert_eq!(
        reading.step(WorkerEvent::Ping(vec![9, 8, 7]), false),
        WorkerAction::SendPong(vec![9, 8, 7])
    );
    assert_eq!(reading.state, WorkerState::Reading);
    assert_eq!(reading.step(WorkerEvent::Sent, false), WorkerAction::Read);
}

#[test]
fn other_frames_are_passed_over() {
    let mut reading = worker(WorkerState::Reading, true, false);
    assert_eq!(reading.step(WorkerEvent::OtherFrame, false), WorkerAction::Read);
    assert_eq!(reading.state, WorkerState::Reading);
}

#[test]
fn would_block_sleeps_and_reads_again() {
    for reconnect in [true, false] {
        let mut reading = worker(WorkerState::Reading, reconnect, false);
        assert_eq!(
            reading.step(WorkerEvent::WouldBlock("would block".to_string()), false),
            WorkerAction::Sleep(Duration::from_millis(25))
        );
        assert_eq!(reading.state, WorkerState::Reading);
        assert_eq!(reading.step(WorkerEvent::Woke, false), WorkerAction::Read);
        assert_eq!(reading.state, WorkerState::Reading);
        same_session(&reading);
    }
}

#[test]
fn would_block_as_error_ends_a_connection_that_does_not_reconnect() {
    let mut reading = worker(WorkerState::Reading, false, true);
    let action = reading.step(WorkerEvent::WouldBlock("would block".to_string()), false);
    assert_eq!(
        action,
        WorkerAction::Fail(BinanceConnectError::SocketError("would block".to_string()))
    );
    assert_eq!(reading.state, WorkerState::Terminated);
    if let WorkerAction::Fail(error) = action {
        assert_eq!(error.severity(), Severity::Recoverable);
    }
}

#[test]
fn would_block_as_error_reconnects_where_the_session_does() {
    let mut reading = worker(WorkerState::Reading, true, true);
    assert_eq!(
        reading.step(WorkerEvent::WouldBlock("would block".to_string()), false),
        WorkerAction::Sleep(Duration::from_millis(100))
    );
    assert_eq!(reading.state, WorkerState::Reconnecting);
}

#[test]
fn a_transport_failure_reconnects_once_after_the_backoff() {
    for state in [WorkerState::Connecting, WorkerState::Reading, WorkerState::Reconnecting] {
        let mut failing = worker(state, true, false);
        assert_eq!(
            failing.step(WorkerEvent::TransportFailure("reset".to_string()), false),
            WorkerAction::Sleep(Duration::from_millis(100))
        );
        assert_eq!(failing.state, WorkerState::Reconnecting);
        assert_eq!(
            failing.step(WorkerEvent::Woke, false),
            WorkerAction::Connect(URL.to_string())
        );
        assert_eq!(failing.state, WorkerState::Connecting);
        assert_eq!(
            failing.step(WorkerEvent::Connected, false),
            WorkerAction::SendText(PAYLOAD.to_string())
        );
        assert_eq!(failing.state, WorkerState::Reading);
        assert_eq!(failing.step(WorkerEvent::Sent, false), WorkerAction::Read);
        same_session(&failing);
    }
}

#[test]
fn a_transport_failure_ends_a_connection_that_does_not_reconnect() {
    for state in [WorkerState::Connecting, WorkerState::Reading] {
        let mut failing = worker(state, false, false);
        assert_eq!(
            failing.step(WorkerEvent::TransportFailure("reset".to_string()), false),
            WorkerAction::Fail(BinanceConnectError::SocketError("reset".to_string()))
        );
        assert_eq!(failing.state, WorkerState::Terminated);
        assert_eq!(failing.step(WorkerEvent::Woke, false), WorkerAction::Finish);
        assert_eq!(failing.state, WorkerState::Terminated);
    }
}

#[test]
fn a_payload_that_cannot_be_read_ends_the_connection() {
    for reconnect in [true, false] {
        let mut reading = worker(WorkerState::Reading, reconnect, false);
        match reading.step(WorkerEvent::Text("garbage".to_string()), false) {
            WorkerAction::Fail(BinanceConnectError::JsonError(error)) => {
                assert_eq!(error.failure, DecodeFailure::NoDeserializer);
                assert_eq!(error.payload, "garbage");
            }
            other => panic!("{:?}", other),
        }
        assert_eq!(reading.state, WorkerState::Terminated);
    }
}

#[test]
fn a_closed_queue_ends_the_connection() {
    for reconnect in [true, false] {
        let mut reading = worker(WorkerState::Reading, reconnect, false);
        let action = reading.step(WorkerEvent::QueueClosed(Event::SubscribeResponseEvent), false);
        assert_eq!(
            action,
            WorkerAction::Fail(BinanceConnectError::MpscSendError(Event::SubscribeResponseEvent))
        );
        assert_eq!(reading.state, WorkerState::Terminated);
    }
}

#[test]
fn a_request_to_stop_is_honoured_at_every_step() {
    for state in [
        WorkerState::Connecting,
        WorkerState::Reading,
        WorkerState::Reconnecting,
        WorkerState::Terminated,
    ] {
        for event in every_event() {
            let mut stopping = worker(state, true, true);
            assert_eq!(stopping.step(event, true), WorkerAction::Finish);
            assert_eq!(stopping.state, WorkerState::Terminated);
            same_session(&stopping);
        }
    }
}

#[test]
fn a_connection_that_has_ended_stays_so() {
    for event in every_event() {
        let mut ended = worker(WorkerState::Terminated, true, false);
        assert_eq!(ended.step(event, false), WorkerAction::Finish);
        assert_eq!(ended.state, WorkerState::Terminated);
    }
}

#[test]
fn a_report_out_of_turn_repeats_the_action_of_the_state() {
    let mut connecting = worker(WorkerState::Connecting, true, false);
    assert_eq!(
        connecting.step(WorkerEvent::Forwarded, false),
        WorkerAction::Connect(URL.to_string())
    );
    assert_eq!(connecting.state, WorkerState::Connecting);
    assert_eq!(
        connecting.step(WorkerEvent::Text("{}".to_string()), false),
        WorkerAction::Connect(URL.to_string())
    );
    let mut waiting = worker(WorkerState::Reconnecting, true, false);
    assert_eq!(
        waiting.step(WorkerEvent::Connected, false),
        WorkerAction::Sleep(Duration::from_millis(100))
    );
    assert_eq!(waiting.state, WorkerState::Reconnecting);
    let mut reading = worker(WorkerState::Reading, true, false);
    assert_eq!(reading.step(WorkerEvent::Connected, false), WorkerAction::Read);
}

#[test]
fn failures_are_settled_by_their_severity() {
    let mut reconnecting = worker(WorkerState::Reading, true, false);
    assert_eq!(
        reconnecting.fail(BinanceConnectError::SocketError("x".to_string())),
        WorkerAction::Sleep(Duration::from_millis(100))
    );
    assert_eq!(reconnecting.state, WorkerState::Reconnecting);
    for error in [
        BinanceConnectError::UrlParseError(url::ParseError::EmptyHost),
        BinanceConnectError::HttpError("x".to_string()),
        BinanceConnectError::HttpResponseError("x".to_string()),
        BinanceConnectError::Other("x".to_string()),
        BinanceConnectError::MpscSendError(Event::SubscribeResponseEvent),
    ] {
        assert_eq!(error.severity(), Severity::Fatal);
        let mut ending = worker(WorkerState::Reading, true, false);
        match ending.fail(error) {
            WorkerAction::Fail(_) => {}
            other => panic!("{:?}", other),
        }
        assert_eq!(ending.state, WorkerState::Terminated);
    }
}

#[test]
fn a_decoded_event_is_handed_over() {
    let mut reading = worker(WorkerState::Reading, true, false);
    assert_eq!(
        reading.decoded(Ok(Event::SubscribeResponseEvent)),
        WorkerAction::Forward(Event::SubscribeResponseEvent)
    );
    assert_eq!(reading.state, WorkerState::Reading);
}
