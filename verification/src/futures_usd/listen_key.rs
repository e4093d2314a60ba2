//! The listen key: the token that opens the streams of one account.
//!
//! The key is asked for over HTTP. This module says where to ask and reads
//! the answer; the request itself is made by the caller.

use crate::constants::BASE_URL_FUTURES;
use crate::constants::BASE_URL_FUTURES_TESTNET;
use crate::constants::ERR_ON_NOT_OK_STATUS;
use crate::constants::FUTURES_LISTEN_KEY;
use crate::decode::has;
use crate::decode::holds;
use crate::decode::required;
use crate::decode::Decode;
use crate::error::BinanceConnectError;
use crate::error::DecodeError;
use crate::error::DecodeFailure;
use crate::json::json_document;
use crate::json::parse_json;
use crate::json::JsonValue;
use crate::text::decimal_of;
use crate::text::decimal_text;
use vstd::prelude::*;
use vstd::string::StringExecFns;

verus! {

/// The credentials of an account.
#[derive(Debug, Clone, PartialEq, Eq)]
pub struct ApiAuth {
    pub api_key: String,
    pub api_secret: String,
}

impl ApiAuth {
    /// Credentials made of a key and its secret.
    pub fn new(api_key: String, api_secret: String) -> (auth: ApiAuth)
        ensures
            auth.api_key == api_key,
            auth.api_secret == api_secret,
    {
        Self { api_key, api_secret }
    }
}

/// A listen key, as the exchange issued it.
#[derive(Debug, Clone, PartialEq, Eq)]
pub struct ListenKey {
    pub key: String,
}

impl Decode for ListenKey {
    open spec fn accepts(document: JsonValue) -> bool {
        has::<String>(document, "listenKey"@)
    }

    open spec fn reflects(self, document: JsonValue) -> bool {
        holds(self.key, document, "listenKey"@)
    }

    fn decode(document: &JsonValue) -> (value: Option<Self>) {
        let key = required::<String>(document, "listenKey")?;
        Some(ListenKey { key })
    }
}

impl ListenKey {
    /// The key that a session holds after an attempt to renew it: the new
    /// key where the attempt gave one, and the key it held before where the
    /// attempt failed or gave an empty key. A failed attempt ends nothing.
    pub fn renewed(self, attempt: Result<ListenKey, BinanceConnectError>) -> (held: ListenKey)
        ensures
            held == match attempt {
                Ok(issued) => if issued.key@.len() > 0 {
                    issued
                } else {
                    self
                },
                Err(_) => self,
            },
            self.key@.len() > 0 ==> held.key@.len() > 0,
    {
        match attempt {
            Ok(issued) => if issued.key.as_str().unicode_len() > 0 {
                issued
            } else {
                self
            },
            Err(_) => self,
        }
    }
}

/// The address of the REST interface: that of the test network or that of
/// the exchange.
pub open spec fn base_url_of(test_net: bool) -> Seq<char> {
    if test_net {
        BASE_URL_FUTURES_TESTNET@
    } else {
        BASE_URL_FUTURES@
    }
}

/// The address of the REST interface.
pub fn base_url(test_net: bool) -> (url: &'static str)
    ensures
        url@ == base_url_of(test_net),
{
    if test_net {
        BASE_URL_FUTURES_TESTNET
    } else {
        BASE_URL_FUTURES
    }
}

/// The address at which a listen key is asked for.
pub fn listen_key_endpoint(test_net: bool) -> (endpoint: String)
    ensures
        endpoint@ == base_url_of(test_net) + FUTURES_LISTEN_KEY@,
{
    let mut endpoint = String::from_str(base_url(test_net));
    endpoint.append(FUTURES_LISTEN_KEY);
    endpoint
}

/// Whether `outcome` is what an answer to a request for a listen key comes
/// to, given its status, the document that its body reads as (`None` where
/// the body is no JSON) and the body itself.
///
/// A status of 200 with a body that holds a listen key gives that key. A
/// status of 200 with another body is an error that holds the body. Any
/// other status is an error that names the status.
pub open spec fn is_listen_key_outcome(
    outcome: Result<ListenKey, BinanceConnectError>,
    status: u16,
    document: Option<JsonValue>,
    body: Seq<char>,
) -> bool {
    if status != 200 {
        outcome matches Err(BinanceConnectError::HttpResponseError(message)) && message@
            == ERR_ON_NOT_OK_STATUS@ + decimal_of(status as nat)
    } else if document is Some && ListenKey::accepts(document->0) {
        outcome matches Ok(key) && key.reflects(document->0)
    } else {
        outcome matches Err(BinanceConnectError::JsonError(error)) && error.reports(
            DecodeFailure::InvalidListenKey,
            body,
        )
    }
}

/// Reads the answer to a request for a listen key, given the document that
/// its body reads as.
pub fn read_listen_key(status: u16, document: Option<&JsonValue>, body: &str) -> (outcome: Result<
    ListenKey,
    BinanceConnectError,
>)
    ensures
        is_listen_key_outcome(
            outcome,
            status,
            match document {
                Some(document) => Some(*document),
                None => None,
            },
            body@,
        ),
{
    if status != 200 {
        let mut message = String::from_str(ERR_ON_NOT_OK_STATUS);
        message.append(decimal_text(status).as_str());
        return Err(BinanceConnectError::HttpResponseError(message));
    }
    let decoded = match document {
        Some(document) => ListenKey::decode(document),
        None => None,
    };
    match decoded {
        Some(key) => Ok(key),
        None => Err(
            BinanceConnectError::JsonError(DecodeError::new(DecodeFailure::InvalidListenKey, body)),
        ),
    }
}

/// Reads the answer to a request for a listen key from its status and its
/// body.
pub fn listen_key_from_response(status: u16, body: &str) -> (outcome: Result<
    ListenKey,
    BinanceConnectError,
>)
    ensures
        is_listen_key_outcome(outcome, status, json_document(body@), body@),
{
    let document = parse_json(body);
    read_listen_key(status, document.as_ref(), body)
}

} // verus!
