//! The connection of a session, as a state machine.
//!
//! The machine decides; its driver acts. The driver performs the action that
//! the machine hands out (connect, send, read, hand an event over, sleep),
//! reports what came of it, and gets the next action in return. The machine
//! itself touches no socket and no clock.
//!
//! A connection is `Connecting` until its socket is open, then `Reading`.
//! A failure of the transport sends it to `Reconnecting` where the session
//! allows that: it waits, and is `Connecting` again, to the same address and
//! with the same subscription. Every other failure, and a failure of the
//! transport where the session does not reconnect, leaves it `Terminated`.
//! A request to stop is honoured at every step.

use crate::error::BinanceConnectError;
use crate::error::DecodeError;
use crate::error::Severity;
use crate::futures_usd::deserializer::deserialize;
use crate::futures_usd::deserializer::is_outcome;
use crate::futures_usd::enums::events::Event;
use crate::futures_usd::stream::duration_of_millis;
use crate::futures_usd::stream::WouldBlockConfig;
use crate::json::json_document;
use std::time::Duration;
use vstd::prelude::*;

verus! {

/// Where a connection stands.
#[derive(Debug, Clone, Copy, PartialEq, Eq, Structural)]
pub enum WorkerState {
    /// The socket is being opened.
    Connecting,
    /// The socket is open and frames are read from it.
    Reading,
    /// The transport failed and the connection waits to connect again.
    Reconnecting,
    /// The connection has ended.
    Terminated,
}

/// What the driver reports of the action it performed.
#[derive(Debug, PartialEq)]
pub enum WorkerEvent {
    /// The socket is open.
    Connected,
    /// A frame was sent.
    Sent,
    /// A text frame was read.
    Text(String),
    /// A ping was read.
    Ping(Vec<u8>),
    /// A frame of another kind was read.
    OtherFrame,
    /// There was nothing to read. The text is the transport's account of it.
    WouldBlock(String),
    /// The transport failed at connecting, sending or reading. The text is
    /// the transport's account of it.
    TransportFailure(String),
    /// The event was handed over to the queue.
    Forwarded,
    /// The receiving end of the queue is gone. The event is the one that
    /// could not be handed over.
    QueueClosed(Event),
    /// The sleep is over.
    Woke,
}

/// What the driver is to do next.
#[derive(Debug, PartialEq)]
pub enum WorkerAction {
    /// Open a socket to this address.
    Connect(String),
    /// Send this text.
    SendText(String),
    /// Answer a ping with a pong of the same content.
    SendPong(Vec<u8>),
    /// Read the next frame.
    Read,
    /// Hand this event over to the queue.
    Forward(Event),
    /// Sleep this long.
    Sleep(Duration),
    /// Nothing: the connection has ended as it was asked to.
    Finish,
    /// Nothing: the connection has ended with this failure.
    Fail(BinanceConnectError),
}

/// The connection of a session.
#[derive(Debug, PartialEq)]
pub struct ConnectionWorker {
    /// The address it connects to.
    pub url: String,
    /// What it sends once the socket is open, if anything.
    pub subscribe_payload: Option<String>,
    /// What it does when it has nothing to read.
    pub would_block_config: WouldBlockConfig,
    /// Whether it connects again after a failure of the transport.
    pub reconnect: bool,
    /// Where it stands.
    pub state: WorkerState,
}

/// How long a connection waits before it connects again: 100 milliseconds,
/// every time.
pub open spec fn reconnect_backoff() -> Duration {
    duration_of_millis(100)
}

impl ConnectionWorker {
    /// Whether `after` is the same connection as `self`, wherever it stands:
    /// the address, the subscription and the policies are those of `self`.
    pub open spec fn same_session(self, after: Self) -> bool {
        &&& after.url == self.url
        &&& after.subscribe_payload == self.subscribe_payload
        &&& after.would_block_config == self.would_block_config
        &&& after.reconnect == self.reconnect
    }

    /// Whether `after` and `action` are what the failure `error` leads to.
    ///
    /// A recoverable failure of a connection that reconnects leads to the
    /// backoff in `Reconnecting`. Every other failure ends the connection,
    /// and the action carries the failure.
    pub open spec fn fails_with(
        self,
        error: BinanceConnectError,
        after: Self,
        action: WorkerAction,
    ) -> bool {
        if self.reconnect && error.severity_of() == Severity::Recoverable {
            after.state == WorkerState::Reconnecting && action == WorkerAction::Sleep(
                reconnect_backoff(),
            )
        } else {
            after.state == WorkerState::Terminated && action == WorkerAction::Fail(error)
        }
    }

    /// Whether `after` and `action` are what a connection that is reading
    /// comes to when a text frame was read as `outcome`.
    ///
    /// An event is handed over and the connection goes on reading. A payload
    /// that could not be read ends the connection, whatever the session says
    /// of reconnecting.
    pub open spec fn follows_decoding(
        self,
        outcome: Result<Event, DecodeError>,
        after: Self,
        action: WorkerAction,
    ) -> bool {
        match outcome {
            Ok(event) => after.state == WorkerState::Reading && action == WorkerAction::Forward(
                event,
            ),
            Err(error) => after.state == WorkerState::Terminated && action == WorkerAction::Fail(
                BinanceConnectError::JsonError(error),
            ),
        }
    }

    /// Whether `after` and `action` are what the report `event` leads to,
    /// where the connection has not ended and is not asked to stop.
    pub open spec fn follows(self, event: WorkerEvent, after: Self, action: WorkerAction) -> bool {
        match event {
            WorkerEvent::TransportFailure(account) => self.fails_with(
                BinanceConnectError::SocketError(account),
                after,
                action,
            ),
            WorkerEvent::QueueClosed(unsent) => self.fails_with(
                BinanceConnectError::MpscSendError(unsent),
                after,
                action,
            ),
            _ => match self.state {
                WorkerState::Connecting => match event {
                    WorkerEvent::Connected => after.state == WorkerState::Reading && action
                        == match self.subscribe_payload {
                        Some(payload) => WorkerAction::SendText(payload),
                        None => WorkerAction::Read,
                    },
                    _ => after.state == WorkerState::Connecting && action == WorkerAction::Connect(
                        self.url,
                    ),
                },
                WorkerState::Reading => match event {
                    WorkerEvent::Text(payload) => match action {
                        WorkerAction::Forward(decoded) => self.follows_decoding(
                            Ok(decoded),
                            after,
                            action,
                        ) && is_outcome(Ok(decoded), json_document(payload@), payload@),
                        WorkerAction::Fail(BinanceConnectError::JsonError(error)) => self.follows_decoding(
                            Err(error),
                            after,
                            action,
                        ) && is_outcome(Err(error), json_document(payload@), payload@),
                        _ => false,
                    },
                    WorkerEvent::Ping(content) => after.state == WorkerState::Reading && action
                        == WorkerAction::SendPong(content),
                    WorkerEvent::WouldBlock(account) => if self.would_block_config.error_on_block {
                        self.fails_with(BinanceConnectError::SocketError(account), after, action)
                    } else {
                        after.state == WorkerState::Reading && action == WorkerAction::Sleep(
                            self.would_block_config.time_out,
                        )
                    },
                    _ => after.state == WorkerState::Reading && action == WorkerAction::Read,
                },
                WorkerState::Reconnecting => match event {
                    WorkerEvent::Woke => after.state == WorkerState::Connecting && action
                        == WorkerAction::Connect(self.url),
                    _ => after.state == WorkerState::Reconnecting && action == WorkerAction::Sleep(
                        reconnect_backoff(),
                    ),
                },
                WorkerState::Terminated => false,
            },
        }
    }

    /// Whether `after` and `action` are the step that the connection takes
    /// on the report `event`.
    ///
    /// A connection that has ended stays so. A connection that is asked to
    /// stop ends, whatever was reported. Otherwise the report decides.
    pub open spec fn steps(
        self,
        event: WorkerEvent,
        stop_requested: bool,
        after: Self,
        action: WorkerAction,
    ) -> bool {
        &&& self.same_session(after)
        &&& if self.state == WorkerState::Terminated || stop_requested {
            after.state == WorkerState::Terminated && action == WorkerAction::Finish
        } else {
            self.follows(event, after, action)
        }
    }

    /// The first action of a connection that has yet to connect: to open
    /// the socket. A connection that has ended has nothing to do.
    pub fn begin(&self) -> (action: WorkerAction)
        ensures
            action == match self.state {
                WorkerState::Connecting => WorkerAction::Connect(self.url),
                WorkerState::Reading => WorkerAction::Read,
                WorkerState::Reconnecting => WorkerAction::Sleep(reconnect_backoff()),
                WorkerState::Terminated => WorkerAction::Finish,
            },
    {
        match self.state {
            WorkerState::Connecting => WorkerAction::Connect(self.url.clone()),
            WorkerState::Reading => WorkerAction::Read,
            WorkerState::Reconnecting => WorkerAction::Sleep(Duration::from_millis(100)),
            WorkerState::Terminated => WorkerAction::Finish,
        }
    }

    /// Settles a failure: the connection waits to connect again where the
    /// failure is recoverable and the session reconnects, and ends with the
    /// failure otherwise.
    pub fn fail(&mut self, error: BinanceConnectError) -> (action: WorkerAction)
        ensures
            old(self).same_session(*final(self)),
            old(self).fails_with(error, *final(self), action),
    {
        let recoverable = match error.severity() {
            Severity::Recoverable => true,
            Severity::Fatal => false,
        };
        if self.reconnect && recoverable {
            self.state = WorkerState::Reconnecting;
            WorkerAction::Sleep(Duration::from_millis(100))
        } else {
            self.state = WorkerState::Terminated;
            WorkerAction::Fail(error)
        }
    }

    /// Settles a text frame that was read as `outcome`: an event is handed
    /// over, and a payload that could not be read ends the connection.
    pub fn decoded(&mut self, outcome: Result<Event, DecodeError>) -> (action: WorkerAction)
        ensures
            old(self).same_session(*final(self)),
            old(self).follows_decoding(outcome, *final(self), action),
    {
        match outcome {
            Ok(event) => {
                self.state = WorkerState::Reading;
                WorkerAction::Forward(event)
            },
            Err(error) => {
                self.state = WorkerState::Terminated;
                WorkerAction::Fail(BinanceConnectError::from(error))
            },
        }
    }

    /// Takes one step: given what the driver reports of the last action, and
    /// whether the connection is asked to stop, decides where the connection
    /// stands now and what the driver is to do next.
    pub fn step(&mut self, event: WorkerEvent, stop_requested: bool) -> (action: WorkerAction)
        ensures
            old(self).steps(event, stop_requested, *final(self), action),
    {
        if stop_requested {
            self.state = WorkerState::Terminated;
            return WorkerAction::Finish;
        }
        match self.state {
            WorkerState::Terminated => WorkerAction::Finish,
            WorkerState::Connecting => match event {
                WorkerEvent::TransportFailure(account) => self.fail(
                    BinanceConnectError::SocketError(account),
                ),
                WorkerEvent::QueueClosed(unsent) => self.fail(
                    BinanceConnectError::MpscSendError(unsent),
                ),
                WorkerEvent::Connected => {
                    self.state = WorkerState::Reading;
                    match &self.subscribe_payload {
                        Some(payload) => WorkerAction::SendText(payload.clone()),
                        None => WorkerAction::Read,
                    }
                },
                _ => WorkerAction::Connect(self.url.clone()),
            },
            WorkerState::Reading => match event {
                WorkerEvent::TransportFailure(account) => self.fail(
                    BinanceConnectError::SocketError(account),
                ),
                WorkerEvent::QueueClosed(unsent) => self.fail(
                    BinanceConnectError::MpscSendError(unsent),
                ),
                WorkerEvent::Text(payload) => {
                    let outcome = deserialize(payload);
                    self.decoded(outcome)
                },
                WorkerEvent::Ping(content) => WorkerAction::SendPong(content),
                WorkerEvent::WouldBlock(account) => {
                    if self.would_block_config.error_on_block {
                        self.fail(BinanceConnectError::SocketError(account))
                    } else {
                        WorkerAction::Sleep(self.would_block_config.time_out)
                    }
                },
                _ => WorkerAction::Read,
            },
            WorkerState::Reconnecting => match event {
                WorkerEvent::TransportFailure(account) => self.fail(
                    BinanceConnectError::SocketError(account),
                ),
                WorkerEvent::QueueClosed(unsent) => self.fail(
                    BinanceConnectError::MpscSendError(unsent),
                ),
                WorkerEvent::Woke => {
                    self.state = WorkerState::Connecting;
                    WorkerAction::Connect(self.url.clone())
                },
                _ => WorkerAction::Sleep(Duration::from_millis(100)),
            },
        }
    }

    /// Nothing to read is no failure unless the session says so: the
    /// connection sleeps for the time that the session set, goes on as the
    /// same connection, and reads again when the sleep is over.
    pub proof fn would_block_sleeps_and_reads_again(
        worker: Self,
        account: String,
        slept: Self,
        sleep: WorkerAction,
        woken: Self,
        retry: WorkerAction,
    )
        requires
            worker.state == WorkerState::Reading,
            !worker.would_block_config.error_on_block,
            worker.steps(WorkerEvent::WouldBlock(account), false, slept, sleep),
            slept.steps(WorkerEvent::Woke, false, woken, retry),
        ensures
            sleep == WorkerAction::Sleep(worker.would_block_config.time_out),
            slept.state == WorkerState::Reading,
            retry == WorkerAction::Read,
            woken.state == WorkerState::Reading,
            worker.same_session(woken),
    {
    }

    /// Nothing to read is a failure of the transport where the session says
    /// so. It ends a connection that does not reconnect, with a socket error
    /// that holds the transport's account.
    pub proof fn would_block_as_error_ends_the_connection(
        worker: Self,
        account: String,
        after: Self,
        action: WorkerAction,
    )
        requires
            worker.state == WorkerState::Reading,
            worker.would_block_config.error_on_block,
            !worker.reconnect,
            worker.steps(WorkerEvent::WouldBlock(account), false, after, action),
        ensures
            after.state == WorkerState::Terminated,
            action == WorkerAction::Fail(BinanceConnectError::SocketError(account)),
            BinanceConnectError::SocketError(account).severity_of() == Severity::Recoverable,
    {
    }

    /// Nothing to read, where the session counts it as a failure, is a
    /// failure of the transport like any other: a connection that reconnects
    /// waits to connect again.
    pub proof fn would_block_as_error_is_a_transport_failure(
        worker: Self,
        account: String,
        after: Self,
        action: WorkerAction,
    )
        requires
            worker.state == WorkerState::Reading,
            worker.would_block_config.error_on_block,
            worker.steps(WorkerEvent::WouldBlock(account), false, after, action),
        ensures
            worker.steps(WorkerEvent::TransportFailure(account), false, after, action),
    {
    }

    /// After a failure of the transport, a connection that reconnects makes
    /// one attempt to connect: it sleeps for the backoff, then connects to
    /// the address it had, and once the socket is open sends the
    /// subscription it had.
    pub proof fn transport_failure_reconnects_once(
        worker: Self,
        account: String,
        waiting: Self,
        backoff: WorkerAction,
        connecting: Self,
        attempt: WorkerAction,
        reading: Self,
        first: WorkerAction,
    )
        requires
            worker.state != WorkerState::Terminated,
            worker.reconnect,
            worker.steps(WorkerEvent::TransportFailure(account), false, waiting, backoff),
            waiting.steps(WorkerEvent::Woke, false, connecting, attempt),
            connecting.steps(WorkerEvent::Connected, false, reading, first),
        ensures
            waiting.state == WorkerState::Reconnecting,
            backoff == WorkerAction::Sleep(reconnect_backoff()),
            connecting.state == WorkerState::Connecting,
            attempt == WorkerAction::Connect(worker.url),
            reading.state == WorkerState::Reading,
            first == match worker.subscribe_payload {
                Some(payload) => WorkerAction::SendText(payload),
                None => WorkerAction::Read,
            },
            worker.same_session(reading),
    {
    }

    /// A failure that is not of the transport ends the connection, whatever
    /// the session says of reconnecting; and so does a failure of the
    /// transport where the session does not reconnect.
    pub proof fn other_failures_end_the_connection(
        worker: Self,
        error: BinanceConnectError,
        after: Self,
        action: WorkerAction,
    )
        requires
            worker.fails_with(error, after, action),
            !worker.reconnect || !(error is SocketError),
        ensures
            after.state == WorkerState::Terminated,
            action == WorkerAction::Fail(error),
    {
    }

    /// A request to stop ends the connection at every step, whatever was
    /// reported; and a connection that has ended stays so.
    pub proof fn stop_is_honoured_at_every_step(
        worker: Self,
        event: WorkerEvent,
        stop_requested: bool,
        after: Self,
        action: WorkerAction,
    )
        requires
            worker.steps(event, stop_requested, after, action),
            stop_requested || worker.state == WorkerState::Terminated,
        ensures
            after.state == WorkerState::Terminated,
            action == WorkerAction::Finish,
    {
    }
}

} // verus!
