//! Setting up a session: its configuration, the streams it asks for, and
//! what it connects to when it starts.

use crate::constants::ERR_ON_NO_ENABLED_STREAM_UNAUTHENTICATED_REQ;
use crate::constants::ERR_ON_NO_LISTEN_KEY_AUTHENTICATED_REQ;
use crate::constants::WS_URL_FUTURES;
use crate::constants::WS_URL_FUTURES_TESTNET;
use crate::error::BinanceConnectError;
use crate::error::Severity;
use crate::futures_usd::client::ConnectionWorker;
use crate::futures_usd::client::WorkerState;
use crate::futures_usd::enums::binance::BookDepthUpdateSpeed;
use crate::futures_usd::enums::binance::KlineContractType;
use crate::futures_usd::enums::binance::KlineInterval;
use crate::futures_usd::enums::binance::MarkPriceUpdateSpeed;
use crate::futures_usd::enums::binance::PartialBookDepthLevel;
use crate::futures_usd::enums::streams::Streams;
use crate::futures_usd::listen_key::ApiAuth;
use crate::futures_usd::listen_key::ListenKey;
use std::time::Duration;
use vstd::prelude::*;
use vstd::string::StringExecFns;

verus! {

/// The `Duration` that `Duration::from_millis` makes of a number of
/// milliseconds.
pub uninterp spec fn duration_of_millis(millis: u64) -> Duration;

/// `Duration::from_millis` is a function of its argument.
pub assume_specification[ Duration::from_millis ](millis: u64) -> (duration: Duration)
    ensures
        duration == duration_of_millis(millis),
;

/// The `Duration` that `Duration::from_secs` makes of a number of seconds.
pub uninterp spec fn duration_of_secs(secs: u64) -> Duration;

/// `Duration::from_secs` is a function of its argument.
pub assume_specification[ Duration::from_secs ](secs: u64) -> (duration: Duration)
    ensures
        duration == duration_of_secs(secs),
;

/// The serialization of the URL that `url::Url::parse` reads from a text, or
/// `None` where it reports an error.
pub uninterp spec fn url_serialization(input: Seq<char>) -> Option<Seq<char>>;

/// Calls `url::Url::parse` and turns the URL into its serialization with
/// `String::from`. The contract only gives the outcome its name: it is a
/// function of the text alone. Nothing is claimed of the error.
#[verifier::external_body]
pub(crate) fn parse_url(input: &str) -> (parsed: Result<String, url::ParseError>)
    ensures
        match parsed {
            Ok(serialization) => url_serialization(input@) == Some(serialization@),
            Err(_) => url_serialization(input@) is None,
        },
{
    match url::Url::parse(input) {
        Ok(url) => Ok(String::from(url)),
        Err(error) => Err(error),
    }
}

/// How long a session keeps a listen key before it asks for a new one.
pub fn listen_key_renewal_interval() -> (interval: Duration)
    ensures
        interval == duration_of_secs(3000),
{
    Duration::from_secs(3000)
}

/// What a connection does when it has nothing to read.
#[derive(Debug, Clone, Copy, PartialEq, Eq)]
pub struct WouldBlockConfig {
    /// How long the connection waits before it reads again.
    pub time_out: Duration,
    /// Whether having nothing to read counts as a failure of the transport.
    pub error_on_block: bool,
}

impl Default for WouldBlockConfig {
    /// Waits ten milliseconds and reads again.
    fn default() -> (config: Self)
        ensures
            config.time_out == duration_of_millis(10),
            !config.error_on_block,
    {
        Self { time_out: Duration::from_millis(10), error_on_block: false }
    }
}

/// The configuration of a session.
#[derive(Debug, Clone, PartialEq, Eq)]
pub struct FuturesWebSocketConfig {
    api_auth: Option<ApiAuth>,
    url: String,
    url_testnet: String,
    testnet: bool,
    would_block_config: WouldBlockConfig,
    reconnect: bool,
}

impl Default for FuturesWebSocketConfig {
    /// No credentials, the addresses of the exchange and of its test
    /// network, the exchange rather than the test network, the default for
    /// a connection with nothing to read, and reconnecting after a failure
    /// of the transport.
    fn default() -> (config: Self)
        ensures
            config.credentials() is None,
            config.live_url() == WS_URL_FUTURES@,
            config.testnet_url() == WS_URL_FUTURES_TESTNET@,
            !config.uses_testnet(),
            config.would_block().time_out == duration_of_millis(10),
            !config.would_block().error_on_block,
            config.reconnects(),
    {
        Self {
            api_auth: None,
            url: String::from_str(WS_URL_FUTURES),
            url_testnet: String::from_str(WS_URL_FUTURES_TESTNET),
            testnet: false,
            would_block_config: WouldBlockConfig::default(),
            reconnect: true,
        }
    }
}

impl FuturesWebSocketConfig {
    /// The credentials of the session, if it has any.
    pub closed spec fn credentials(self) -> Option<ApiAuth> {
        self.api_auth
    }

    /// The address of the feed of the exchange, as it was given.
    pub closed spec fn live_url(self) -> Seq<char> {
        self.url@
    }

    /// The address of the feed of the test network, as it was given.
    pub closed spec fn testnet_url(self) -> Seq<char> {
        self.url_testnet@
    }

    /// Whether the session goes to the test network.
    pub closed spec fn uses_testnet(self) -> bool {
        self.testnet
    }

    /// What a connection of the session does when it has nothing to read.
    pub closed spec fn would_block(self) -> WouldBlockConfig {
        self.would_block_config
    }

    /// Whether the session connects again after a failure of the transport.
    pub closed spec fn reconnects(self) -> bool {
        self.reconnect
    }

    /// The address that the session goes to, as it was given.
    pub open spec fn chosen_url(self) -> Seq<char> {
        if self.uses_testnet() {
            self.testnet_url()
        } else {
            self.live_url()
        }
    }

    /// Whether `other` differs from `self` at most in what a setter names.
    pub open spec fn same_but(
        self,
        other: Self,
        credentials: bool,
        live_url: bool,
        testnet_url: bool,
        testnet: bool,
        would_block: bool,
        reconnect: bool,
    ) -> bool {
        &&& credentials || other.credentials() == self.credentials()
        &&& live_url || other.live_url() == self.live_url()
        &&& testnet_url || other.testnet_url() == self.testnet_url()
        &&& testnet || other.uses_testnet() == self.uses_testnet()
        &&& would_block || other.would_block() == self.would_block()
        &&& reconnect || other.reconnects() == self.reconnects()
    }

    /// Sets what a connection does when it has nothing to read.
    pub fn with_would_block_config(self, would_block_config: WouldBlockConfig) -> (config: Self)
        ensures
            config.would_block() == would_block_config,
            self.same_but(config, false, false, false, false, true, false),
    {
        let mut config = self;
        config.would_block_config = would_block_config;
        config
    }

    /// Sets the address of the feed of the exchange. A text that is no URL
    /// is refused, and nothing is set.
    pub fn with_url(self, url: &str) -> (outcome: Result<Self, url::ParseError>)
        ensures
            outcome is Ok <==> url_serialization(url@) is Some,
            outcome matches Ok(config) ==> config.live_url() == url@ && self.same_but(
                config,
                false,
                true,
                false,
                false,
                false,
                false,
            ),
    {
        match parse_url(url) {
            Ok(_) => {
                let mut config = self;
                config.url = String::from_str(url);
                Ok(config)
            },
            Err(error) => Err(error),
        }
    }

    /// Sets the address of the feed of the test network. A text that is no
    /// URL is refused, and nothing is set.
    pub fn with_url_testnet(self, url: &str) -> (outcome: Result<Self, url::ParseError>)
        ensures
            outcome is Ok <==> url_serialization(url@) is Some,
            outcome matches Ok(config) ==> config.testnet_url() == url@ && self.same_but(
                config,
                false,
                false,
                true,
                false,
                false,
                false,
            ),
    {
        match parse_url(url) {
            Ok(_) => {
                let mut config = self;
                config.url_testnet = String::from_str(url);
                Ok(config)
            },
            Err(error) => Err(error),
        }
    }

    /// Sets the credentials: the session will be an authenticated one.
    pub fn with_api_auth(self, api_auth: ApiAuth) -> (config: Self)
        ensures
            config.credentials() == Some(api_auth),
            self.same_but(config, true, false, false, false, false, false),
    {
        let mut config = self;
        config.api_auth = Some(api_auth);
        config
    }

    /// Sends the session to the test network.
    pub fn use_testnet(self) -> (config: Self)
        ensures
            config.uses_testnet(),
            self.same_but(config, false, false, false, true, false, false),
    {
        let mut config = self;
        config.testnet = true;
        config
    }

    /// Keeps the session from connecting again after a failure of the
    /// transport.
    pub fn do_not_reconnect(self) -> (config: Self)
        ensures
            !config.reconnects(),
            self.same_but(config, false, false, false, false, false, true),
    {
        let mut config = self;
        config.reconnect = false;
        config
    }

    /// The credentials of the session, if it has any.
    pub fn api_auth(&self) -> (credentials: Option<&ApiAuth>)
        ensures
            credentials == match self.credentials() {
                Some(auth) => Some(&auth),
                None => None,
            },
    {
        self.api_auth.as_ref()
    }

    /// Whether the session goes to the test network.
    pub fn is_testnet(&self) -> (testnet: bool)
        ensures
            testnet == self.uses_testnet(),
    {
        self.testnet
    }

    /// The address that the session goes to, as it was given: that of the
    /// test network or that of the exchange.
    pub fn get_url(&self) -> (url: &str)
        ensures
            url@ == self.chosen_url(),
    {
        if self.testnet {
            self.url_testnet.as_str()
        } else {
            self.url.as_str()
        }
    }
}

/// The names in a subscription request: each in double quotes, with commas
/// between them.
pub open spec fn quoted_names(names: Seq<Seq<char>>) -> Seq<char>
    decreases names.len(),
{
    if names.len() == 0 {
        Seq::empty()
    } else if names.len() == 1 {
        "\""@ + names[0] + "\""@
    } else {
        quoted_names(names.drop_last()) + ","@ + "\""@ + names.last() + "\""@
    }
}

/// The request that subscribes a connection to the streams of these names.
pub open spec fn subscribe_request(names: Seq<Seq<char>>) -> Seq<char> {
    "{\"method\":\"SUBSCRIBE\",\"params\":["@ + quoted_names(names) + "],\"id\":1}"@
}

/// The names of streams, in their order.
pub open spec fn names_of(streams: Seq<Streams>) -> Seq<Seq<char>> {
    Seq::new(streams.len(), |i: int| streams[i].name())
}

/// Writes the request that subscribes a connection to `streams`.
pub fn subscribe_request_text(streams: &Vec<Streams>) -> (request: String)
    ensures
        request@ == subscribe_request(names_of(streams@)),
{
    let mut list = String::new();
    let mut i: usize = 0;
    while i < streams.len()
        invariant
            i <= streams.len(),
            list@ == quoted_names(names_of(streams@).take(i as int)),
        decreases streams.len() - i,
    {
        proof {
            let names = names_of(streams@);
            assert(names.take(i + 1).drop_last() == names.take(i as int));
            assert(names.take(i + 1).last() == streams@[i as int].name());
        }
        if i > 0 {
            list.append(",");
        }
        list.append("\"");
        list.append(streams[i].to_str());
        list.append("\"");
        i += 1;
    }
    proof {
        let names = names_of(streams@);
        assert(names.take(streams.len() as int) == names);
    }
    let mut request = String::from_str("{\"method\":\"SUBSCRIBE\",\"params\":[");
    request.append(list.as_str());
    request.append("],\"id\":1}");
    request
}

/// A session that has not started yet: its configuration and the streams
/// that were declared for it, in the order of their declaration.
#[derive(Debug, Clone, PartialEq, Eq)]
pub struct FuturesUsdStream {
    config: FuturesWebSocketConfig,
    streams_public: Vec<Streams>,
}

impl Default for FuturesUsdStream {
    /// A session with the default configuration and no stream.
    fn default() -> (session: Self)
        ensures
            session.streams().len() == 0,
            session.config().credentials() is None,
            session.config().live_url() == WS_URL_FUTURES@,
            session.config().testnet_url() == WS_URL_FUTURES_TESTNET@,
            !session.config().uses_testnet(),
            session.config().would_block().time_out == duration_of_millis(10),
            !session.config().would_block().error_on_block,
            session.config().reconnects(),
    {
        Self { config: FuturesWebSocketConfig::default(), streams_public: Vec::new() }
    }
}

impl FuturesUsdStream {
    /// The configuration of the session.
    pub closed spec fn config(self) -> FuturesWebSocketConfig {
        self.config
    }

    /// The streams that were declared, in the order of their declaration.
    pub closed spec fn streams(self) -> Seq<Streams> {
        self.streams_public@
    }

    /// Whether the session is an authenticated one: its configuration holds
    /// credentials.
    pub open spec fn is_authenticated(self) -> bool {
        self.config().credentials() is Some
    }

    /// A session with this configuration and no stream.
    pub fn with_config(config: FuturesWebSocketConfig) -> (session: Self)
        ensures
            session.config() == config,
            session.streams().len() == 0,
    {
        Self { config, streams_public: Vec::new() }
    }

    /// The configuration of the session.
    pub fn configuration(&self) -> (config: &FuturesWebSocketConfig)
        ensures
            *config == self.config(),
    {
        &self.config
    }

    /// Whether `after` is `self` with one more stream declared, of the name
    /// `name`: the stream comes after those declared before, and nothing
    /// else changes.
    pub open spec fn declares(self, after: Self, name: Seq<char>) -> bool {
        &&& after.config() == self.config()
        &&& after.streams().len() == self.streams().len() + 1
        &&& after.streams().drop_last() == self.streams()
        &&& after.streams().last().name() == name
    }

    /// Declares a stream: it is added after those declared before.
    pub fn with_stream(self, stream: Streams) -> (session: Self)
        ensures
            session.streams() == self.streams().push(stream),
            self.declares(session, stream.name()),
    {
        let mut session = self;
        session.streams_public.push(stream);
        assert(session.streams().drop_last() == self.streams());
        session
    }

    /// Declares a stream: the best bid and ask of a symbol.
    pub fn with_book_ticker(self, symbol: &str) -> (session: Self)
        ensures
            self.declares(session, Streams::book_ticker_name(symbol@)),
            session.streams().last() is BookTicker,
    {
        self.with_stream(Streams::book_ticker(symbol))
    }

    /// Declares a stream: the best bid and ask of every symbol.
    pub fn with_book_tickers(self) -> (session: Self)
        ensures
            self.declares(session, Streams::book_tickers_name()),
            session.streams().last() is BookTickers,
    {
        self.with_stream(Streams::book_tickers())
    }

    /// Declares a stream: the aggregated trades of a symbol.
    pub fn with_agg_trade(self, symbol: &str) -> (session: Self)
        ensures
            self.declares(session, Streams::agg_trade_name(symbol@)),
            session.streams().last() is AggTrade,
    {
        self.with_stream(Streams::agg_trade(symbol))
    }

    /// Declares a stream: the mark price of a symbol.
    pub fn with_mark_price_update(
        self,
        symbol: &str,
        update_speed: MarkPriceUpdateSpeed,
    ) -> (session: Self)
        ensures
            self.declares(session, Streams::mark_price_update_name(symbol@, update_speed)),
            session.streams().last() is MarkPriceUpdate,
    {
        self.with_stream(Streams::mark_price_update(symbol, update_speed))
    }

    /// Declares a stream: the mark price of every symbol.
    pub fn with_mark_price_updates(self, update_speed: MarkPriceUpdateSpeed) -> (session: Self)
        ensures
            self.declares(session, Streams::mark_price_updates_name(update_speed)),
            session.streams().last() is MarkPriceUpdates,
    {
        self.with_stream(Streams::mark_price_updates(update_speed))
    }

    /// Declares a stream: the candles of a symbol.
    pub fn with_kline(self, symbol: &str, kline_interval: KlineInterval) -> (session: Self)
        ensures
            self.declares(session, Streams::kline_name(symbol@, kline_interval)),
            session.streams().last() is Kline,
    {
        self.with_stream(Streams::kline(symbol, kline_interval))
    }

    /// Declares a stream: the candles of a continuous contract of a pair.
    pub fn with_continuous_kline(
        self,
        symbol: &str,
        kline_contract_type: KlineContractType,
        kline_interval: KlineInterval,
    ) -> (session: Self)
        ensures
            self.declares(
                session,
                Streams::continuous_kline_name(symbol@, kline_contract_type, kline_interval),
            ),
            session.streams().last() is ContinuousKline,
    {
        self.with_stream(Streams::continuous_kline(symbol, kline_contract_type, kline_interval))
    }

    /// Declares a stream: the short day statistics of a symbol.
    pub fn with_mini_ticker(self, symbol: &str) -> (session: Self)
        ensures
            self.declares(session, Streams::mini_ticker_name(symbol@)),
            session.streams().last() is MiniTicker,
    {
        self.with_stream(Streams::mini_ticker(symbol))
    }

    /// Declares a stream: the short day statistics of every symbol.
    pub fn with_mini_tickers(self) -> (session: Self)
        ensures
            self.declares(session, Streams::mini_tickers_name()),
            session.streams().last() is MiniTickers,
    {
        self.with_stream(Streams::mini_tickers())
    }

    /// Declares a stream: the day statistics of a symbol.
    pub fn with_ticker(self, symbol: &str) -> (session: Self)
        ensures
            self.declares(session, Streams::ticker_name(symbol@)),
            session.streams().last() is Ticker,
    {
        self.with_stream(Streams::ticker(symbol))
    }

    /// Declares a stream: the day statistics of every symbol.
    pub fn with_tickers(self) -> (session: Self)
        ensures
            self.declares(session, Streams::tickers_name()),
            session.streams().last() is Tickers,
    {
        self.with_stream(Streams::tickers())
    }

    /// Declares a stream: the liquidations of a symbol.
    pub fn with_force_order(self, symbol: &str) -> (session: Self)
        ensures
            self.declares(session, Streams::force_order_name(symbol@)),
            session.streams().last() is ForceOrder,
    {
        self.with_stream(Streams::force_order(symbol))
    }

    /// Declares a stream: the liquidations of every symbol.
    pub fn with_force_orders(self) -> (session: Self)
        ensures
            self.declares(session, Streams::force_orders_name()),
            session.streams().last() is ForceOrders,
    {
        self.with_stream(Streams::force_orders())
    }

    /// Declares a stream: the top levels of the book of a symbol.
    pub fn with_partial_book_depth(
        self,
        symbol: &str,
        book_depth_level: PartialBookDepthLevel,
        book_depth_update_speed: BookDepthUpdateSpeed,
    ) -> (session: Self)
        ensures
            self.declares(
                session,
                Streams::partial_book_depth_name(
                    symbol@,
                    book_depth_level,
                    book_depth_update_speed,
                ),
            ),
            session.streams().last() is PartialBookDepth,
    {
        self.with_stream(
            Streams::partial_book_depth(symbol, book_depth_level, book_depth_update_speed),
        )
    }

    /// Declares a stream: the changes to the book of a symbol.
    pub fn with_book_depth(
        self,
        symbol: &str,
        book_depth_update_speed: BookDepthUpdateSpeed,
    ) -> (session: Self)
        ensures
            self.declares(session, Streams::book_depth_name(symbol@, book_depth_update_speed)),
            session.streams().last() is BookDepth,
    {
        self.with_stream(Streams::book_depth(symbol, book_depth_update_speed))
    }

    /// Declares a stream: the composite index of a symbol.
    pub fn with_composite_index(self, symbol: &str) -> (session: Self)
        ensures
            self.declares(session, Streams::composite_index_name(symbol@)),
            session.streams().last() is CompositeIndex,
    {
        self.with_stream(Streams::composite_index(symbol))
    }

    /// Declares a stream: the terms of every contract.
    pub fn with_contract_info(self) -> (session: Self)
        ensures
            self.declares(session, Streams::contract_info_name()),
            session.streams().last() is ContractInfo,
    {
        self.with_stream(Streams::contract_info())
    }

    /// Declares a stream: the index of an asset.
    pub fn with_asset_index_update(self, symbol: &str) -> (session: Self)
        ensures
            self.declares(session, Streams::asset_index_update_name(symbol@)),
            session.streams().last() is AssetIndexUpdate,
    {
        self.with_stream(Streams::asset_index_update(symbol))
    }

    /// Declares a stream: the index of every asset.
    pub fn with_asset_index_updates(self) -> (session: Self)
        ensures
            self.declares(session, Streams::asset_index_updates_name()),
            session.streams().last() is AssetIndexUpdates,
    {
        self.with_stream(Streams::asset_index_updates())
    }

    /// Why the session cannot start, if it cannot for a reason that lies in
    /// its setup alone.
    ///
    /// An authenticated session needs a listen key that is not empty. A
    /// session without credentials needs at least one stream.
    pub open spec fn setup_fault(self, listen_key: Option<ListenKey>) -> Option<Seq<char>> {
        if self.is_authenticated() {
            if listen_key matches Some(issued) && issued.key@.len() > 0 {
                None
            } else {
                Some(ERR_ON_NO_LISTEN_KEY_AUTHENTICATED_REQ@)
            }
        } else if self.streams().len() == 0 {
            Some(ERR_ON_NO_ENABLED_STREAM_UNAUTHENTICATED_REQ@)
        } else {
            None
        }
    }

    /// What the address of the connection ends in: the listen key of an
    /// authenticated session, and else the name of the stream that was
    /// declared last.
    pub open spec fn target_name(self, listen_key: Option<ListenKey>) -> Seq<char> {
        if self.is_authenticated() {
            listen_key->0.key@
        } else {
            self.streams().last().name()
        }
    }

    /// The address of the connection before it is read as a URL: the address
    /// of the feed as a URL, then `ws/` and the target name.
    pub open spec fn target_text(self, listen_key: Option<ListenKey>) -> Seq<char> {
        url_serialization(self.config().chosen_url())->0 + "ws/"@ + self.target_name(listen_key)
    }

    /// The request that the connection sends once it is open, if it sends
    /// one. It names every declared stream, in the order of declaration. A
    /// session without credentials that declared one stream sends none: the
    /// address names that stream already.
    pub open spec fn subscription(self) -> Option<Seq<char>> {
        if self.streams().len() == 0 || (!self.is_authenticated() && self.streams().len() == 1) {
            None
        } else {
            Some(subscribe_request(names_of(self.streams())))
        }
    }

    /// Whether `worker` is the connection that the session starts: it goes
    /// to the address of the session, sends its subscription, follows its
    /// configuration and has yet to connect.
    pub open spec fn starts(self, listen_key: Option<ListenKey>, worker: ConnectionWorker) -> bool {
        &&& Some(worker.url@) == url_serialization(self.target_text(listen_key))
        &&& match self.subscription() {
            Some(request) => worker.subscribe_payload matches Some(payload) && payload@ == request,
            None => worker.subscribe_payload is None,
        }
        &&& worker.would_block_config == self.config().would_block()
        &&& worker.reconnect == self.config().reconnects()
        &&& worker.state == WorkerState::Connecting
    }

    /// Whether `outcome` is what starting the session comes to.
    ///
    /// A fault in the setup is reported first, as it is: nothing else of the
    /// configuration is looked at. Then the address of the feed and the
    /// address of the connection must each be a URL. If they are, the
    /// outcome is the connection that the session starts.
    pub open spec fn is_start_outcome(
        self,
        listen_key: Option<ListenKey>,
        outcome: Result<ConnectionWorker, BinanceConnectError>,
    ) -> bool {
        if self.setup_fault(listen_key) is Some {
            outcome matches Err(BinanceConnectError::Other(text)) && Some(text@) == self.setup_fault(
                listen_key,
            )
        } else if url_serialization(self.config().chosen_url()) is None || url_serialization(
            self.target_text(listen_key),
        ) is None {
            outcome matches Err(BinanceConnectError::UrlParseError(_))
        } else {
            outcome matches Ok(worker) && self.starts(listen_key, worker)
        }
    }

    /// A session without credentials and without a stream does not start,
    /// whatever else it was set up with and whatever listen key it is given:
    /// the outcome is the error that says so, and no connection.
    pub proof fn no_stream_no_start(
        self,
        listen_key: Option<ListenKey>,
        outcome: Result<ConnectionWorker, BinanceConnectError>,
    )
        requires
            !self.is_authenticated(),
            self.streams().len() == 0,
            self.is_start_outcome(listen_key, outcome),
        ensures
            outcome matches Err(BinanceConnectError::Other(text)) && text@
                == ERR_ON_NO_ENABLED_STREAM_UNAUTHENTICATED_REQ@,
            outcome matches Err(error) && error.severity_of() == Severity::Fatal,
    {
    }

    /// An authenticated session that starts holds a listen key that is not
    /// empty, and its connection goes to an address that ends in that key.
    pub proof fn authenticated_start_holds_a_listen_key(
        self,
        listen_key: Option<ListenKey>,
        worker: ConnectionWorker,
    )
        requires
            self.is_authenticated(),
            self.is_start_outcome(listen_key, Ok(worker)),
        ensures
            listen_key matches Some(issued) && issued.key@.len() > 0,
            Some(worker.url@) == url_serialization(
                url_serialization(self.config().chosen_url())->0 + "ws/"@ + listen_key->0.key@,
            ),
    {
    }

    /// The request that the connection sends once it is open, if it sends
    /// one.
    pub fn subscribe_payload(&self) -> (payload: Option<String>)
        ensures
            match self.subscription() {
                Some(request) => payload matches Some(text) && text@ == request,
                None => payload is None,
            },
    {
        let declared = self.streams_public.len();
        if declared == 0 || (self.config.api_auth.is_none() && declared == 1) {
            return None;
        }
        Some(subscribe_request_text(&self.streams_public))
    }

    /// The address of the connection, as the URL that it reads as.
    fn url(&self, listen_key: Option<&ListenKey>) -> (outcome: Result<
        String,
        BinanceConnectError,
    >)
        requires
            self.setup_fault(
                match listen_key {
                    Some(issued) => Some(*issued),
                    None => None,
                },
            ) is None,
        ensures
            ({
                let listen_key = match listen_key {
                    Some(issued) => Some(*issued),
                    None => None,
                };
                match outcome {
                    Ok(url) => url_serialization(self.config().chosen_url()) is Some && Some(url@)
                        == url_serialization(self.target_text(listen_key)),
                    Err(error) => error is UrlParseError && (url_serialization(
                        self.config().chosen_url(),
                    ) is None || url_serialization(self.target_text(listen_key)) is None),
                }
            }),
    {
        let mut target = match parse_url(self.config.get_url()) {
            Ok(base) => base,
            Err(error) => {
                return Err(BinanceConnectError::from(error));
            },
        };
        target.append("ws/");
        match listen_key {
            Some(issued) if self.config.api_auth.is_some() => {
                target.append(issued.key.as_str());
            },
            _ => {
                target.append(self.streams_public[self.streams_public.len() - 1].to_str());
            },
        }
        match parse_url(target.as_str()) {
            Ok(url) => Ok(url),
            Err(error) => Err(BinanceConnectError::from(error)),
        }
    }

    /// Starts the session: decides what it connects to and what it sends
    /// first, and hands out the connection, which has yet to connect.
    ///
    /// `listen_key` is the listen key that was issued for the credentials
    /// of the session. A session without credentials does not look at it.
    pub fn start(self, listen_key: Option<ListenKey>) -> (outcome: Result<
        ConnectionWorker,
        BinanceConnectError,
    >)
        ensures
            self.is_start_outcome(listen_key, outcome),
    {
        if self.config.api_auth.is_some() {
            let usable = match &listen_key {
                Some(issued) => issued.key.as_str().unicode_len() > 0,
                None => false,
            };
            if !usable {
                return Err(
                    BinanceConnectError::Other(
                        String::from_str(ERR_ON_NO_LISTEN_KEY_AUTHENTICATED_REQ),
                    ),
                );
            }
        } else if self.streams_public.len() == 0 {
            return Err(
                BinanceConnectError::Other(
                    String::from_str(ERR_ON_NO_ENABLED_STREAM_UNAUTHENTICATED_REQ),
                ),
            );
        }
        let url = match self.url(listen_key.as_ref()) {
            Ok(url) => url,
            Err(error) => {
                return Err(error);
            },
        };
        let subscribe_payload = self.subscribe_payload();
        Ok(
            ConnectionWorker {
                url,
                subscribe_payload,
                would_block_config: self.config.would_block_config,
                reconnect: self.config.reconnect,
                state: WorkerState::Connecting,
            },
        )
    }
}

} // verus!
