//! What can go wrong in a session.

use crate::futures_usd::enums::events::Event;
use crate::futures_usd::enums::events::EventType;
use vstd::prelude::*;

verus! {

/// `url::ParseError`, of which nothing is known here but that it exists.
#[verifier::external_type_specification]
#[verifier::external_body]
pub struct ExUrlParseError(url::ParseError);

/// Why a payload could not be read into an event.
#[derive(Debug, Clone, Copy, PartialEq, Eq, Structural)]
pub enum DecodeFailure {
    /// The payload carries an event tag that names no event of the feed.
    UnknownEventType,
    /// The payload carries the tag of this event, but it is not what the
    /// feed documents for it.
    SchemaMismatch(EventType),
    /// The payload is no JSON, or JSON of no shape that the feed sends.
    NoDeserializer,
    /// The payload is the answer to a request for a listen key, and holds
    /// none.
    InvalidListenKey,
}

/// A payload that could not be read into an event.
#[derive(Debug, Clone, PartialEq, Eq)]
pub struct DecodeError {
    /// Why the payload could not be read.
    pub failure: DecodeFailure,
    /// The payload, as it came.
    pub payload: String,
}

impl DecodeError {
    /// Whether the error reports `failure` on `payload`.
    pub open spec fn reports(self, failure: DecodeFailure, payload: Seq<char>) -> bool {
        self.failure == failure && self.payload@ == payload
    }

    /// An error that reports `failure` on `payload`.
    pub fn new(failure: DecodeFailure, payload: &str) -> (error: DecodeError)
        ensures
            error.reports(failure, payload@),
    {
        DecodeError { failure, payload: String::from_str(payload) }
    }
}

/// Whether a failure lets the session try again or ends it.
#[derive(Debug, Clone, Copy, PartialEq, Eq, Structural)]
pub enum Severity {
    /// The transport failed: a new connection may succeed.
    Recoverable,
    /// The session holds or met something it cannot work with.
    Fatal,
}

/// The ways in which a session fails.
#[derive(Debug, PartialEq)]
pub enum BinanceConnectError {
    /// An address is no URL.
    UrlParseError(url::ParseError),
    /// The transport failed, or had nothing to read when that counts as a
    /// failure. The text is the transport's own account of it.
    SocketError(String),
    /// The receiving end of the queue is gone. The event is the one that
    /// could not be handed over.
    MpscSendError(Event),
    /// A payload could not be read.
    JsonError(DecodeError),
    /// The request for a listen key could not be made.
    HttpError(String),
    /// The request for a listen key was answered with a status other than
    /// 200.
    HttpResponseError(String),
    /// Anything else, such as a session that was set up wrongly.
    Other(String),
}

impl BinanceConnectError {
    /// Failures of the transport are recoverable; every other failure is
    /// fatal.
    pub open spec fn severity_of(self) -> Severity {
        match self {
            BinanceConnectError::SocketError(_) => Severity::Recoverable,
            _ => Severity::Fatal,
        }
    }

    /// Whether the failure lets the session try again or ends it.
    pub fn severity(&self) -> (severity: Severity)
        ensures
            severity == self.severity_of(),
    {
        match self {
            BinanceConnectError::SocketError(_) => Severity::Recoverable,
            _ => Severity::Fatal,
        }
    }
}

impl vstd::std_specs::convert::FromSpecImpl<url::ParseError> for BinanceConnectError {
    open spec fn obeys_from_spec() -> bool {
        true
    }

    open spec fn from_spec(err: url::ParseError) -> BinanceConnectError {
        BinanceConnectError::UrlParseError(err)
    }
}

impl From<url::ParseError> for BinanceConnectError {
    fn from(err: url::ParseError) -> (error: BinanceConnectError) {
        BinanceConnectError::UrlParseError(err)
    }
}

impl vstd::std_specs::convert::FromSpecImpl<DecodeError> for BinanceConnectError {
    open spec fn obeys_from_spec() -> bool {
        true
    }

    open spec fn from_spec(err: DecodeError) -> BinanceConnectError {
        BinanceConnectError::JsonError(err)
    }
}

impl From<DecodeError> for BinanceConnectError {
    fn from(err: DecodeError) -> (error: BinanceConnectError) {
        BinanceConnectError::JsonError(err)
    }
}

} // verus!
