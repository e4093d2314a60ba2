use binance_connect::constants::API_KEY_HEADER;
use binance_connect::error::BinanceConnectError;
use binance_connect::error::DecodeError;
use binance_connect::error::DecodeFailure;
use binance_connect::futures_usd::listen_key::base_url;
use binance_connect::futures_usd::listen_key::listen_key_endpoint;
use binance_connect::futures_usd::listen_key::listen_key_from_response;
use binance_connect::futures_usd::listen_key::read_listen_key;
use binance_connect::futures_usd::listen_key::ApiAuth;
use binance_connect::futures_usd::listen_key::ListenKey;
use binance_connect::json::JsonValue;

#[test]
fn credentials_hold_key_and_secret() {
    let auth = ApiAuth::new("k".to_string(), "s".to_string());
    assert_eq!(auth.api_key, "k");
    assert_eq!(auth.api_secret, "s");
    assert_eq!(API_KEY_HEADER, "X-MBX-APIKEY");
}

#[test]
fn the_listen_key_is_asked_for_at_the_rest_interface() {
    assert_eq!(base_url(false), "https://fapi.binance.com");
    assert_eq!(base_url(true), "https://testnet.binancefuture.com");
    assert_eq!(listen_key_endpoint(false), "https://fapi.binance.com/fapi/v1/listenKey");
    assert_eq!(
        listen_key_endpoint(true),
        "https://testnet.binancefuture.com/fapi/v1/listenKey"
    );
}

#[test]
fn an_ok_answer_gives_the_key() {
    let body = r#"{"listenKey":"pqia91ma19a5s61cv6a81va65sdf19v8a65a1a5s61cv6a81va65sdf19v8a65a1"}"#;
    assert_eq!(
        listen_key_from_response(200, body),
        Ok(ListenKey {
            key: "pqia91ma19a5s61cv6a81va65sdf19v8a65a1a5s61cv6a81va65sdf19v8a65a1".to_string()
        })
    );
}

#[test]
fn an_ok_answer_without_a_key_is_an_error_that_holds_the_body() {
    for body in ["", "{}", r#"{"listenKey":5}"#, r#"["listenKey"]"#, "<html>"] {
        assert_eq!(
            listen_key_from_response(200, body),
            Err(BinanceConnectError::JsonError(DecodeError {
                failure: DecodeFailure::InvalidListenKey,
                payload: body.to_string(),
            }))
        );
    }
}

#[test]
fn another_status_is_an_error_that_names_it() {
    let body = r#"{"listenKey":"abc"}"#;
    assert_eq!(
        listen_key_from_response(404, body),
        Err(BinanceConnectError::HttpResponseError(
            "Not-OK status code received 404".to_string()
        ))
    );
    assert_eq!(
        listen_key_from_response(201, body),
        Err(BinanceConnectError::HttpResponseError(
            "Not-OK status code received 201".to_string()
        ))
    );
    assert_eq!(
        listen_key_from_response(0, body),
        Err(BinanceConnectError::HttpResponseError(
            "Not-OK status code received 0".to_string()
        ))
    );
}

#[test]
fn the_answer_is_read_from_the_document_alone() {
    let document = JsonValue::Object(vec![(
        "listenKey".to_string(),
        JsonValue::String("abc".to_string()),
    )]);
    assert_eq!(
        read_listen_key(200, Some(&document), "body"),
        Ok(ListenKey { key: "abc".to_string() })
    );
    assert!(read_listen_key(200, None, "body").is_err());
    assert!(read_listen_key(500, Some(&document), "body").is_err());
}

#[test]
fn a_renewed_key_replaces_the_old_one() {
    let held = ListenKey { key: "old".to_string() };
    let issued = ListenKey { key: "new".to_string() };
    assert_eq!(held.clone().renewed(Ok(issued.clone())), issued);
    assert_eq!(
        held.clone().renewed(Err(BinanceConnectError::HttpError("timeout".to_string()))),
        held
    );
    assert_eq!(held.clone().renewed(Ok(ListenKey { key: String::new() })), held);
}
