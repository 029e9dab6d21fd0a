//! Connection settings, validated server URLs, the factory builder and the
//! factory's lifecycle (open until closed).
use vstd::prelude::*;

use crate::duration::Duration;
use crate::szconfigmanager::SzConfigManagerGrpc;
use crate::szdiagnostic::SzDiagnosticGrpc;
use crate::szengine::SzEngineGrpc;
use crate::szproduct::SzProductGrpc;
use crate::szerrortypes::{SzError, SzErrorKind};
use crate::text::{concat, duration_debug, duration_debug_text, has_prefix, starts_with};

verus! {

broadcast use vstd::string::group_string_axioms;

#[verifier::external_type_specification]
#[verifier::external_body]
pub struct ExChannel(tonic::transport::Channel);

#[verifier::external_type_specification]
#[verifier::external_body]
pub struct ExClientTlsConfig(tonic::transport::ClientTlsConfig);

/// Configuration for gRPC connections created by [`SzAbstractFactoryGrpc`].
///
/// Use [`Default::default()`] for balanced settings, or the presets
/// [`for_development`](Self::for_development) and
/// [`for_production`](Self::for_production) for common scenarios.
#[derive(Debug, Clone, Copy, PartialEq, Eq, Hash)]
pub struct GrpcConnectionConfig {
    /// Timeout for establishing the initial TCP connection. Default: 10 seconds.
    pub connect_timeout: Duration,
    /// Per-RPC timeout applied to every gRPC call on the channel. Default: 120 seconds.
    pub rpc_timeout: Duration,
    /// Interval between HTTP/2 keepalive pings. `None` disables keepalive.
    /// Default: `None`.
    pub keepalive_interval: Option<Duration>,
    /// How long to wait for a keepalive response before considering the
    /// connection dead. Only meaningful when `keepalive_interval` is `Some`.
    /// Default: 20 seconds.
    pub keepalive_timeout: Duration,
}

/// `true` when `config` has the given timeouts, in seconds, and the given
/// keepalive interval (in seconds, `None` for no keepalive).
pub open spec fn config_has_seconds(
    config: GrpcConnectionConfig,
    connect: nat,
    rpc: nat,
    keepalive_interval: Option<nat>,
    keepalive_timeout: nat,
) -> bool {
    &&& config.connect_timeout@ == connect * 1_000_000_000
    &&& config.rpc_timeout@ == rpc * 1_000_000_000
    &&& match (config.keepalive_interval, keepalive_interval) {
        (Some(d), Some(s)) => d@ == s * 1_000_000_000,
        (None, None) => true,
        _ => false,
    }
    &&& config.keepalive_timeout@ == keepalive_timeout * 1_000_000_000
}

/// The problem that [`GrpcConnectionConfig::validate`] reports for
/// `config`: the message for the first rule it breaks, in this order:
/// `connect_timeout` must be non-zero, `rpc_timeout` must be non-zero,
/// `rpc_timeout` must be at least `connect_timeout`, and when keepalive is
/// enabled `keepalive_timeout` must be non-zero and `keepalive_interval`
/// must be longer than `keepalive_timeout`. `None` when it breaks none.
pub open spec fn config_problem(config: GrpcConnectionConfig) -> Option<Seq<char>> {
    let connect = config.connect_timeout;
    let rpc = config.rpc_timeout;
    let keepalive = config.keepalive_timeout;
    if connect@ == 0 {
        Some("connect_timeout must be greater than zero"@)
    } else if rpc@ == 0 {
        Some("rpc_timeout must be greater than zero"@)
    } else if rpc@ < connect@ {
        Some(
            "rpc_timeout ("@ + duration_debug_text(rpc.spec_as_secs(), rpc.spec_subsec_nanos())
                + ") must be >= connect_timeout ("@ + duration_debug_text(
                connect.spec_as_secs(),
                connect.spec_subsec_nanos(),
            ) + ")"@,
        )
    } else {
        match config.keepalive_interval {
            Some(interval) => if keepalive@ == 0 {
                Some("keepalive_timeout must be greater than zero when keepalive is enabled"@)
            } else if interval@ <= keepalive@ {
                Some(
                    "keepalive_interval ("@ + duration_debug_text(
                        interval.spec_as_secs(),
                        interval.spec_subsec_nanos(),
                    ) + ") must be greater than keepalive_timeout ("@ + duration_debug_text(
                        keepalive.spec_as_secs(),
                        keepalive.spec_subsec_nanos(),
                    ) + ")"@,
                )
            } else {
                None
            },
            None => None,
        }
    }
}

/// `true` when `config` has sensible values: both timeouts are non-zero,
/// the RPC timeout is at least the connect timeout, and when keepalive is
/// enabled its timeout is non-zero and shorter than its interval.
pub open spec fn config_is_valid(config: GrpcConnectionConfig) -> bool {
    &&& config.connect_timeout@ > 0
    &&& config.rpc_timeout@ > 0
    &&& config.rpc_timeout@ >= config.connect_timeout@
    &&& config.keepalive_interval matches Some(interval) ==> {
        &&& config.keepalive_timeout@ > 0
        &&& interval@ > config.keepalive_timeout@
    }
}

/// What [`GrpcConnectionConfig::validate`] accepts and refuses: it accepts
/// exactly the configurations whose connect and RPC timeouts are non-zero
/// (any length above zero will do), whose RPC timeout is at least the
/// connect timeout, and whose keepalive, when enabled, has a non-zero
/// timeout shorter than its interval. A zero connect timeout is refused
/// first, then a zero RPC timeout, each with its own message, and a zero
/// keepalive timeout with keepalive enabled has its own message too.
pub proof fn lemma_validate_rules(config: GrpcConnectionConfig)
    ensures
        config_problem(config) is None <==> {
            &&& config.connect_timeout@ > 0
            &&& config.rpc_timeout@ > 0
            &&& config.rpc_timeout@ >= config.connect_timeout@
            &&& match config.keepalive_interval {
                Some(interval) => config.keepalive_timeout@ > 0 && interval@
                    > config.keepalive_timeout@,
                None => true,
            }
        },
        config_is_valid(config) <==> config_problem(config) is None,
        config.connect_timeout@ == 0 ==> config_problem(config) == Some(
            "connect_timeout must be greater than zero"@,
        ),
        config.connect_timeout@ > 0 && config.rpc_timeout@ == 0 ==> config_problem(config) == Some(
            "rpc_timeout must be greater than zero"@,
        ),
        config.connect_timeout@ > 0 && config.rpc_timeout@ >= config.connect_timeout@
            && config.keepalive_interval is Some && config.keepalive_timeout@ == 0
            ==> config_problem(config) == Some(
            "keepalive_timeout must be greater than zero when keepalive is enabled"@,
        ),
{
}

/// The `Debug` rendering of an optional duration.
pub open spec fn option_duration_debug_text(d: Option<Duration>) -> Seq<char> {
    match d {
        Some(d) => "Some("@ + duration_debug_text(d.spec_as_secs(), d.spec_subsec_nanos()) + ")"@,
        None => "None"@,
    }
}

impl Default for GrpcConnectionConfig {
    /// Balanced settings: 10 s connect timeout, 120 s RPC timeout, no
    /// keepalive (keepalive timeout 20 s).
    fn default() -> (config: Self)
        ensures
            config_has_seconds(config, 10, 120, None, 20),
    {
        Self {
            connect_timeout: Duration::from_secs(10),
            rpc_timeout: Duration::from_secs(120),
            keepalive_interval: None,
            keepalive_timeout: Duration::from_secs(20),
        }
    }
}

impl GrpcConnectionConfig {
    /// Preset for local development: short timeouts, no keepalive.
    ///
    /// - `connect_timeout`: 3 seconds
    /// - `rpc_timeout`: 30 seconds
    /// - `keepalive_interval`: None
    pub fn for_development() -> (config: Self)
        ensures
            config_has_seconds(config, 3, 30, None, 20),
    {
        Self {
            connect_timeout: Duration::from_secs(3),
            rpc_timeout: Duration::from_secs(30),
            keepalive_interval: None,
            keepalive_timeout: Duration::from_secs(20),
        }
    }

    /// Preset for production: generous timeouts with keepalive enabled.
    ///
    /// - `connect_timeout`: 30 seconds
    /// - `rpc_timeout`: 300 seconds (5 minutes)
    /// - `keepalive_interval`: 60 seconds
    /// - `keepalive_timeout`: 20 seconds
    pub fn for_production() -> (config: Self)
        ensures
            config_has_seconds(config, 30, 300, Some(60), 20),
    {
        Self {
            connect_timeout: Duration::from_secs(30),
            rpc_timeout: Duration::from_secs(300),
            keepalive_interval: Some(Duration::from_secs(60)),
            keepalive_timeout: Duration::from_secs(20),
        }
    }

    /// Validates the configuration, returning a `BadInput` error (code 0)
    /// for nonsensical values; see [`config_problem`] for the rules and
    /// their messages.
    pub fn validate(&self) -> (r: Result<(), SzError>)
        ensures
            match config_problem(*self) {
                None => r is Ok,
                Some(message) => r matches Err(e) && e.is(SzErrorKind::BadInput, 0, message),
            },
            r is Ok <==> config_is_valid(*self),
    {
        if self.connect_timeout.is_zero() {
            return Err(SzError::bad_input("connect_timeout must be greater than zero"));
        }
        if self.rpc_timeout.is_zero() {
            return Err(SzError::bad_input("rpc_timeout must be greater than zero"));
        }
        if self.rpc_timeout.as_nanos() < self.connect_timeout.as_nanos() {
            let rpc = duration_debug(self.rpc_timeout);
            let connect = duration_debug(self.connect_timeout);
            let message = concat(
                &[
                    "rpc_timeout (",
                    rpc.as_str(),
                    ") must be >= connect_timeout (",
                    connect.as_str(),
                    ")",
                ],
            );
            proof {
                reveal_with_fuel(crate::text::concat_text, 6);
            }
            return Err(SzError::new(SzErrorKind::BadInput, 0, message));
        }
        if let Some(interval) = self.keepalive_interval {
            if self.keepalive_timeout.is_zero() {
                return Err(
                    SzError::bad_input(
                        "keepalive_timeout must be greater than zero when keepalive is enabled",
                    ),
                );
            }
            if interval.as_nanos() <= self.keepalive_timeout.as_nanos() {
                let interval_text = duration_debug(interval);
                let timeout_text = duration_debug(self.keepalive_timeout);
                let message = concat(
                    &[
                        "keepalive_interval (",
                        interval_text.as_str(),
                        ") must be greater than keepalive_timeout (",
                        timeout_text.as_str(),
                        ")",
                    ],
                );
                proof {
                    reveal_with_fuel(crate::text::concat_text, 6);
                }
                return Err(SzError::new(SzErrorKind::BadInput, 0, message));
            }
        }
        Ok(())
    }

    /// The text shown for the configuration (its `Display` form):
    /// `GrpcConnectionConfig { connect_timeout: .., rpc_timeout: ..,
    /// keepalive_interval: .., keepalive_timeout: .. }` with each value in its
    /// `Debug` form.
    pub fn display(&self) -> (s: String)
        ensures
            s@ == "GrpcConnectionConfig { connect_timeout: "@ + duration_debug_text(
                self.connect_timeout.spec_as_secs(),
                self.connect_timeout.spec_subsec_nanos(),
            ) + ", rpc_timeout: "@ + duration_debug_text(
                self.rpc_timeout.spec_as_secs(),
                self.rpc_timeout.spec_subsec_nanos(),
            ) + ", keepalive_interval: "@ + option_duration_debug_text(self.keepalive_interval)
                + ", keepalive_timeout: "@ + duration_debug_text(
                self.keepalive_timeout.spec_as_secs(),
                self.keepalive_timeout.spec_subsec_nanos(),
            ) + " }"@,
    {
        let connect = duration_debug(self.connect_timeout);
        let rpc = duration_debug(self.rpc_timeout);
        let interval = match self.keepalive_interval {
            Some(d) => {
                let inner = duration_debug(d);
                let text = concat(&["Some(", inner.as_str(), ")"]);
                proof {
                    reveal_with_fuel(crate::text::concat_text, 4);
                }
                text
            },
            None => "None".to_owned(),
        };
        let keepalive = duration_debug(self.keepalive_timeout);
        let text = concat(
            &[
                "GrpcConnectionConfig { connect_timeout: ",
                connect.as_str(),
                ", rpc_timeout: ",
                rpc.as_str(),
                ", keepalive_interval: ",
                interval.as_str(),
                ", keepalive_timeout: ",
                keepalive.as_str(),
                " }",
            ],
        );
        proof {
            reveal_with_fuel(crate::text::concat_text, 10);
        }
        text
    }
}

/// The default settings and both presets are valid configurations.
pub proof fn lemma_presets_valid(config: GrpcConnectionConfig)
    requires
        config_has_seconds(config, 10, 120, None, 20) || config_has_seconds(
            config,
            3,
            30,
            None,
            20,
        ) || config_has_seconds(config, 30, 300, Some(60), 20),
    ensures
        config_is_valid(config),
        config_problem(config) is None,
{
}

/// `true` when `url` uses the `http://` or `https://` scheme.
pub open spec fn is_grpc_url(url: Seq<char>) -> bool {
    has_prefix(url, "http://"@) || has_prefix(url, "https://"@)
}

/// The message of the error for a URL with another scheme.
pub open spec fn grpc_url_error_text(url: Seq<char>) -> Seq<char> {
    "gRPC URL must use http:// or https:// scheme (got: "@ + url + ")"@
}

/// A validated gRPC URL: it uses the `http://` or `https://` scheme.
///
/// Construct it with [`GrpcUrl::new`], [`TryFrom`] or [`str::parse`].
#[derive(Debug, PartialEq, Eq, PartialOrd, Ord, Hash)]
pub struct GrpcUrl(String);

impl Clone for GrpcUrl {
    fn clone(&self) -> (u: Self)
        ensures
            u@ == self@,
    {
        proof {
            use_type_invariant(self);
        }
        GrpcUrl(self.0.clone())
    }
}

impl View for GrpcUrl {
    type V = Seq<char>;

    closed spec fn view(&self) -> Seq<char> {
        self.0@
    }
}

impl GrpcUrl {
    #[verifier::type_invariant]
    spec fn well_formed(self) -> bool {
        is_grpc_url(self.0@)
    }

    /// Validates `url`: it is accepted when it starts with `http://` or
    /// `https://`, and refused otherwise with a `BadInput` error (code 0)
    /// naming it.
    pub fn new(url: &str) -> (r: Result<GrpcUrl, SzError>)
        ensures
            r is Ok <==> is_grpc_url(url@),
            r matches Ok(u) ==> u@ == url@,
            r matches Err(e) ==> e.is(SzErrorKind::BadInput, 0, grpc_url_error_text(url@)),
    {
        if !starts_with(url, "http://") && !starts_with(url, "https://") {
            let message = concat(
                &["gRPC URL must use http:// or https:// scheme (got: ", url, ")"],
            );
            proof {
                reveal_with_fuel(crate::text::concat_text, 4);
            }
            return Err(SzError::new(SzErrorKind::BadInput, 0, message));
        }
        Ok(GrpcUrl(url.to_owned()))
    }

    /// Returns the URL as a string slice.
    pub fn as_str(&self) -> (s: &str)
        ensures
            s@ == self@,
            is_grpc_url(s@),
    {
        proof {
            use_type_invariant(self);
        }
        self.0.as_str()
    }

    /// The URL's text (its `Display` form).
    pub fn display(&self) -> (s: String)
        ensures
            s@ == self@,
    {
        self.0.clone()
    }

    /// The URL as an owned string.
    pub fn into_string(self) -> (s: String)
        ensures
            s@ == self@,
    {
        self.0
    }
}

impl TryFrom<&str> for GrpcUrl {
    type Error = SzError;

    /// Same as [`GrpcUrl::new`].
    fn try_from(url: &str) -> (r: Result<Self, Self::Error>)
        ensures
            r is Ok <==> is_grpc_url(url@),
            r matches Ok(u) ==> u@ == url@,
            r matches Err(e) ==> e.is(SzErrorKind::BadInput, 0, grpc_url_error_text(url@)),
    {
        GrpcUrl::new(url)
    }
}

/// The conversion is specified by the `ensures` of its `try_from`, not by a
/// spec function.
impl vstd::std_specs::convert::TryFromSpecImpl<&str> for GrpcUrl {
    open spec fn obeys_try_from_spec() -> bool {
        false
    }

    open spec fn try_from_spec(url: &str) -> Result<Self, SzError> {
        vstd::pervasive::arbitrary()
    }
}

impl TryFrom<String> for GrpcUrl {
    type Error = SzError;

    /// Same as [`GrpcUrl::new`] on the string's text.
    fn try_from(url: String) -> (r: Result<Self, Self::Error>)
        ensures
            r is Ok <==> is_grpc_url(url@),
            r matches Ok(u) ==> u@ == url@,
            r matches Err(e) ==> e.is(SzErrorKind::BadInput, 0, grpc_url_error_text(url@)),
    {
        GrpcUrl::new(url.as_str())
    }
}

/// The conversion is specified by the `ensures` of its `try_from`, not by a
/// spec function.
impl vstd::std_specs::convert::TryFromSpecImpl<String> for GrpcUrl {
    open spec fn obeys_try_from_spec() -> bool {
        false
    }

    open spec fn try_from_spec(url: String) -> Result<Self, SzError> {
        vstd::pervasive::arbitrary()
    }
}

impl std::str::FromStr for GrpcUrl {
    type Err = SzError;

    /// Same as [`GrpcUrl::new`].
    fn from_str(s: &str) -> (r: Result<Self, Self::Err>)
        ensures
            r is Ok <==> is_grpc_url(s@),
            r matches Ok(u) ==> u@ == s@,
            r matches Err(e) ==> e.is(SzErrorKind::BadInput, 0, grpc_url_error_text(s@)),
    {
        GrpcUrl::new(s)
    }
}

impl std::ops::Deref for GrpcUrl {
    type Target = str;

    fn deref(&self) -> (s: &str)
        ensures
            s@ == self@,
    {
        self.0.as_str()
    }
}

impl From<GrpcUrl> for String {
    /// The URL's text.
    fn from(url: GrpcUrl) -> (s: String)
        ensures
            s@ == url@,
    {
        url.0
    }
}

/// The conversion is specified by the `ensures` of its `from`, over the
/// URL's view, not by a spec function.
impl vstd::std_specs::convert::FromSpecImpl<GrpcUrl> for String {
    open spec fn obeys_from_spec() -> bool {
        false
    }

    open spec fn from_spec(url: GrpcUrl) -> String {
        vstd::pervasive::arbitrary()
    }
}

impl AsRef<str> for GrpcUrl {
    fn as_ref(&self) -> (s: &str)
        ensures
            s@ == self@,
    {
        self.as_str()
    }
}

/// `Channel::clone` returns a handle on the same connection pool: it shares
/// the original's sender, worker handle and semaphore, but starts without a
/// permit, so it is not the same value. Nothing is claimed about the clone.
pub assume_specification[ <tonic::transport::Channel as Clone>::clone ](
    channel: &tonic::transport::Channel,
) -> tonic::transport::Channel;

/// The message of the error for an operation on a closed factory.
pub open spec fn closed_factory_text() -> Seq<char> {
    "SzAbstractFactory has been closed"@
}

/// The factory for SDK components: a handle on one gRPC channel, open until
/// [`close`](Self::close) is called.
///
/// Closing the factory only stops it from creating components; components
/// it created earlier keep working, and clones of the factory are closed
/// separately.
#[derive(Debug, Clone)]
pub struct SzAbstractFactoryGrpc {
    channel: tonic::transport::Channel,
    closed: bool,
}

impl SzAbstractFactoryGrpc {
    /// `true` once [`close`](Self::close) has been called.
    pub closed spec fn spec_is_closed(&self) -> bool {
        self.closed
    }

    /// The channel handle the factory gives its components.
    pub closed spec fn spec_channel(&self) -> tonic::transport::Channel {
        self.channel
    }

    /// Creates a new, open factory from an existing channel.
    pub fn new_from_channel(channel: tonic::transport::Channel) -> (f: Self)
        ensures
            !f.spec_is_closed(),
            f.spec_channel() == channel,
    {
        Self { channel, closed: false }
    }

    /// Returns a clone of the underlying channel handle.
    pub fn channel(&self) -> tonic::transport::Channel {
        self.channel.clone()
    }

    /// Returns `true` if [`close`](Self::close) has been called.
    #[verifier::when_used_as_spec(spec_is_closed)]
    pub fn is_closed(&self) -> (b: bool)
        ensures
            b == self.spec_is_closed(),
    {
        self.closed
    }

    /// Closes the factory. Closing is idempotent and always succeeds.
    pub fn close(&mut self) -> (r: Result<(), SzError>)
        ensures
            r is Ok,
            final(self).spec_is_closed(),
    {
        self.closed = true;
        Ok(())
    }

    /// Succeeds while the factory is open; once it is closed, returns a
    /// `NotInitialized` error (code 0). Every operation of the factory
    /// that creates a component or calls the server checks this first.
    pub fn check_closed(&self) -> (r: Result<(), SzError>)
        ensures
            r is Ok <==> !self.spec_is_closed(),
            r matches Err(e) ==> e.is(SzErrorKind::NotInitialized, 0, closed_factory_text()),
    {
        if self.closed {
            return Err(SzError::not_initialized("SzAbstractFactory has been closed"));
        }
        Ok(())
    }

    /// Creates a configuration manager on the factory's channel; refused
    /// with the error of [`check_closed`](Self::check_closed) once the
    /// factory is closed.
    pub fn create_config_manager(&self) -> (r: Result<SzConfigManagerGrpc, SzError>)
        ensures
            r is Ok <==> !self.spec_is_closed(),
            r matches Err(e) ==> e.is(SzErrorKind::NotInitialized, 0, closed_factory_text()),
    {
        match self.check_closed() {
            Ok(()) => Ok(SzConfigManagerGrpc::new(self.channel.clone())),
            Err(e) => Err(e),
        }
    }

    /// Creates a diagnostic component on the factory's channel; refused
    /// once the factory is closed.
    pub fn create_diagnostic(&self) -> (r: Result<SzDiagnosticGrpc, SzError>)
        ensures
            r is Ok <==> !self.spec_is_closed(),
            r matches Err(e) ==> e.is(SzErrorKind::NotInitialized, 0, closed_factory_text()),
    {
        match self.check_closed() {
            Ok(()) => Ok(SzDiagnosticGrpc::new(self.channel.clone())),
            Err(e) => Err(e),
        }
    }

    /// Creates an engine component on the factory's channel; refused once
    /// the factory is closed.
    pub fn create_engine(&self) -> (r: Result<SzEngineGrpc, SzError>)
        ensures
            r is Ok <==> !self.spec_is_closed(),
            r matches Err(e) ==> e.is(SzErrorKind::NotInitialized, 0, closed_factory_text()),
    {
        match self.check_closed() {
            Ok(()) => Ok(SzEngineGrpc::new(self.channel.clone())),
            Err(e) => Err(e),
        }
    }

    /// Creates a product component on the factory's channel; refused once
    /// the factory is closed.
    pub fn create_product(&self) -> (r: Result<SzProductGrpc, SzError>)
        ensures
            r is Ok <==> !self.spec_is_closed(),
            r matches Err(e) ==> e.is(SzErrorKind::NotInitialized, 0, closed_factory_text()),
    {
        match self.check_closed() {
            Ok(()) => Ok(SzProductGrpc::new(self.channel.clone())),
            Err(e) => Err(e),
        }
    }

    /// Returns a builder for fluent construction.
    pub fn builder() -> (b: SzAbstractFactoryBuilder)
        ensures
            b.spec_url() is None,
            config_has_seconds(b.spec_config(), 10, 120, None, 20),
            b.spec_tls() is None,
    {
        SzAbstractFactoryBuilder::new()
    }

    /// The validated settings for connecting to `url`: the configuration
    /// must pass [`GrpcConnectionConfig::validate`], whose error is returned
    /// otherwise.
    pub fn prepare_connection(
        url: GrpcUrl,
        config: GrpcConnectionConfig,
        tls: Option<tonic::transport::ClientTlsConfig>,
    ) -> (r: Result<ConnectionPlan, SzError>)
        ensures
            r is Ok <==> config_is_valid(config),
            r matches Ok(plan) ==> plan.url@ == url@ && plan.config == config && plan.tls == tls,
            r matches Err(e) ==> config_problem(config) == Some(e.spec_message()) && e.spec_kind()
                == SzErrorKind::BadInput && e.spec_code() == 0,
    {
        match config.validate() {
            Ok(()) => Ok(ConnectionPlan { url, config, tls }),
            Err(e) => Err(e),
        }
    }
}

impl From<tonic::transport::Channel> for SzAbstractFactoryGrpc {
    /// Same as [`SzAbstractFactoryGrpc::new_from_channel`]: an open factory.
    fn from(channel: tonic::transport::Channel) -> (f: Self)
        ensures
            !f.spec_is_closed(),
    {
        SzAbstractFactoryGrpc { channel, closed: false }
    }
}

impl vstd::std_specs::convert::FromSpecImpl<tonic::transport::Channel> for SzAbstractFactoryGrpc {
    open spec fn obeys_from_spec() -> bool {
        true
    }

    closed spec fn from_spec(channel: tonic::transport::Channel) -> Self {
        SzAbstractFactoryGrpc { channel, closed: false }
    }
}

/// Everything needed to open a channel: a valid URL, a valid configuration
/// and optional TLS settings.
#[derive(Debug, Clone)]
pub struct ConnectionPlan {
    pub url: GrpcUrl,
    pub config: GrpcConnectionConfig,
    pub tls: Option<tonic::transport::ClientTlsConfig>,
}

/// The message of the error for a builder whose URL was never set.
pub open spec fn missing_url_text() -> Seq<char> {
    "gRPC URL is required — call .url() on the builder"@
}

/// Builder for [`SzAbstractFactoryGrpc`].
///
/// The only required setting is the gRPC URL (set with [`url`](Self::url)).
#[derive(Debug, Clone)]
pub struct SzAbstractFactoryBuilder {
    url: Option<Result<GrpcUrl, String>>,
    config: GrpcConnectionConfig,
    tls: Option<tonic::transport::ClientTlsConfig>,
}

/// What the builder records for a URL given to [`SzAbstractFactoryBuilder::url`]:
/// the URL when it is valid, or the text of the error that refused it.
pub open spec fn recorded_url(url: Seq<char>) -> Result<Seq<char>, Seq<char>> {
    if is_grpc_url(url) {
        Ok(url)
    } else {
        Err(grpc_url_error_text(url))
    }
}

impl SzAbstractFactoryBuilder {
    /// The URL setting: none until [`url`](Self::url) is called, then the
    /// valid URL or the text of the error that refused it.
    pub closed spec fn spec_url(&self) -> Option<Result<Seq<char>, Seq<char>>> {
        match self.url {
            Some(Ok(u)) => Some(Ok(u@)),
            Some(Err(m)) => Some(Err(m@)),
            None => None,
        }
    }

    /// The connection settings.
    pub closed spec fn spec_config(&self) -> GrpcConnectionConfig {
        self.config
    }

    /// The TLS settings, when they were given.
    pub closed spec fn spec_tls(&self) -> Option<tonic::transport::ClientTlsConfig> {
        self.tls
    }

    /// Creates a new builder with default settings and no URL.
    pub fn new() -> (b: Self)
        ensures
            b.spec_url() is None,
            config_has_seconds(b.spec_config(), 10, 120, None, 20),
            b.spec_tls() is None,
    {
        Self { url: None, config: GrpcConnectionConfig::default(), tls: None }
    }

    /// Sets the gRPC server URL (required). The URL is validated at once;
    /// an invalid scheme is reported when [`prepare`](Self::prepare) runs.
    pub fn url(self, url: &str) -> (b: Self)
        ensures
            b.spec_url() == Some(recorded_url(url@)),
            b.spec_config() == self.spec_config(),
            b.spec_tls() == self.spec_tls(),
    {
        let recorded = match GrpcUrl::new(url) {
            Ok(u) => Ok(u),
            Err(e) => Err(e.display()),
        };
        Self { url: Some(recorded), ..self }
    }

    /// Sets the TCP connection timeout. Default: 10 seconds.
    pub fn connect_timeout(self, timeout: Duration) -> (b: Self)
        ensures
            b.spec_config() == (GrpcConnectionConfig {
                connect_timeout: timeout,
                ..self.spec_config()
            }),
            b.spec_url() == self.spec_url(),
            b.spec_tls() == self.spec_tls(),
    {
        let config = GrpcConnectionConfig { connect_timeout: timeout, ..self.config };
        Self { config, ..self }
    }

    /// Sets the per-RPC timeout. Default: 120 seconds.
    pub fn rpc_timeout(self, timeout: Duration) -> (b: Self)
        ensures
            b.spec_config() == (GrpcConnectionConfig { rpc_timeout: timeout, ..self.spec_config() }),
            b.spec_url() == self.spec_url(),
            b.spec_tls() == self.spec_tls(),
    {
        let config = GrpcConnectionConfig { rpc_timeout: timeout, ..self.config };
        Self { config, ..self }
    }

    /// Enables HTTP/2 keepalive pings at the given interval.
    pub fn keepalive_interval(self, interval: Duration) -> (b: Self)
        ensures
            b.spec_config() == (GrpcConnectionConfig {
                keepalive_interval: Some(interval),
                ..self.spec_config()
            }),
            b.spec_url() == self.spec_url(),
            b.spec_tls() == self.spec_tls(),
    {
        let config = GrpcConnectionConfig { keepalive_interval: Some(interval), ..self.config };
        Self { config, ..self }
    }

    /// Sets the keepalive response timeout. Default: 20 seconds.
    pub fn keepalive_timeout(self, timeout: Duration) -> (b: Self)
        ensures
            b.spec_config() == (GrpcConnectionConfig {
                keepalive_timeout: timeout,
                ..self.spec_config()
            }),
            b.spec_url() == self.spec_url(),
            b.spec_tls() == self.spec_tls(),
    {
        let config = GrpcConnectionConfig { keepalive_timeout: timeout, ..self.config };
        Self { config, ..self }
    }

    /// Applies all settings of a [`GrpcConnectionConfig`] at once; later
    /// setters override them.
    pub fn from_config(self, config: GrpcConnectionConfig) -> (b: Self)
        ensures
            b.spec_config() == config,
            b.spec_url() == self.spec_url(),
            b.spec_tls() == self.spec_tls(),
    {
        Self { config, ..self }
    }

    /// Enables TLS for the connection.
    pub fn tls_config(self, tls: tonic::transport::ClientTlsConfig) -> (b: Self)
        ensures
            b.spec_tls() == Some(tls),
            b.spec_config() == self.spec_config(),
            b.spec_url() == self.spec_url(),
    {
        Self { tls: Some(tls), ..self }
    }

    /// Checks the builder's settings before connecting: a `BadInput` error
    /// (code 0) when no URL was set or the URL was refused (with the text of
    /// that refusal), the error of [`GrpcConnectionConfig::validate`] when
    /// the configuration is invalid, and otherwise the settings to connect
    /// with.
    pub fn prepare(self) -> (r: Result<ConnectionPlan, SzError>)
        ensures
            match self.spec_url() {
                None => r matches Err(e) && e.is(SzErrorKind::BadInput, 0, missing_url_text()),
                Some(Err(m)) => r matches Err(e) && e.is(SzErrorKind::BadInput, 0, m),
                Some(Ok(u)) => match config_problem(self.spec_config()) {
                    Some(m) => r matches Err(e) && e.is(SzErrorKind::BadInput, 0, m),
                    None => r matches Ok(plan) && plan.url@ == u && plan.config
                        == self.spec_config() && plan.tls == self.spec_tls(),
                },
            },
    {
        let url = match self.url {
            None => {
                return Err(
                    SzError::bad_input("gRPC URL is required — call .url() on the builder"),
                )
            },
            Some(Err(message)) => {
                return Err(SzError::new(SzErrorKind::BadInput, 0, message))
            },
            Some(Ok(url)) => url,
        };
        match self.config.validate() {
            Ok(()) => Ok(ConnectionPlan { url, config: self.config, tls: self.tls }),
            Err(e) => Err(e),
        }
    }
}

impl Default for SzAbstractFactoryBuilder {
    fn default() -> (b: Self)
        ensures
            b.spec_url() is None,
            config_has_seconds(b.spec_config(), 10, 120, None, 20),
            b.spec_tls() is None,
    {
        Self::new()
    }
}

} // verus!
