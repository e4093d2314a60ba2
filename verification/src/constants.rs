//! The addresses of the exchange and the fixed texts of this crate.

use vstd::prelude::*;

verus! {

/// Where the REST interface of the exchange lives.
pub const BASE_URL_FUTURES: &'static str = "https://fapi.binance.com";

/// Where the feed of the exchange lives.
pub const WS_URL_FUTURES: &'static str = "wss://fstream.binance.com";

/// Where the REST interface of the test network lives.
pub const BASE_URL_FUTURES_TESTNET: &'static str = "https://testnet.binancefuture.com";

/// Where the feed of the test network lives.
pub const WS_URL_FUTURES_TESTNET: &'static str = "wss://stream.binancefuture.com";

/// The path under which a listen key is asked for.
pub const FUTURES_LISTEN_KEY: &'static str = "/fapi/v1/listenKey";

/// The header that carries the API key of a request.
pub const API_KEY_HEADER: &'static str = "X-MBX-APIKEY";

/// What a session says when it is started without credentials and without a
/// stream.
pub const ERR_ON_NO_ENABLED_STREAM_UNAUTHENTICATED_REQ: &'static str =
    "Can't start unauthenticated WS connection without at least 1 enabled stream";

/// What a session says when it is started with credentials and without a
/// listen key.
pub const ERR_ON_NO_LISTEN_KEY_AUTHENTICATED_REQ: &'static str =
    "Can't start authenticated WS connection without a listen key";

/// How a failed request for a listen key begins its account of the status.
pub const ERR_ON_NOT_OK_STATUS: &'static str = "Not-OK status code received ";

} // verus!
