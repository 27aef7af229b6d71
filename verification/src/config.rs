//! Configuration of the server.

use crate::outside::duration_of_secs;
use crate::summary;
use crate::traits::{IdProvider, MessageCryptoErrorPolicy, MessageEncryption};
use std::sync::Arc;
use std::time::Duration;
use vstd::prelude::*;

verus! {

/// Ten mebibytes.
pub const TEN_MB_SIZE_BYTES: u32 = 10 * 1024 * 1024;

/// Default maximum connections allowed.
pub const MAX_CONNECTIONS: u32 = 100;

/// What a [`PingConfig`] holds.
#[derive(Debug, Copy, Clone)]
pub struct PingSettings {
    /// Period which the server pings the connected client.
    pub ping_interval: Duration,
    /// Max allowed time for a connection to stay idle.
    pub inactive_limit: Duration,
    /// Max failures.
    pub max_failures: usize,
}

/// Configuration for WebSocket ping/pong mechanism and it may be used to disconnect
/// an inactive connection.
///
/// The ping/pong frames are not associated: if a pong frame isn't received within the
/// `inactive_limit` then it's regarded as missed.
///
/// Such that the `inactive_limit` should be configured to longer than a single
/// WebSocket ping takes or it might be missed and may end up
/// terminating the connection.
///
/// Default: ping_interval: 30 seconds, max failures: 1 and inactive limit: 40 seconds.
#[derive(Debug, Copy, Clone)]
pub struct PingConfig {
    ping_interval: Duration,
    inactive_limit: Duration,
    max_failures: usize,
}

impl View for PingConfig {
    type V = PingSettings;

    closed spec fn view(&self) -> PingSettings {
        PingSettings {
            ping_interval: self.ping_interval,
            inactive_limit: self.inactive_limit,
            max_failures: self.max_failures,
        }
    }
}

/// The default ping settings.
pub open spec fn default_ping() -> PingSettings {
    PingSettings {
        ping_interval: duration_of_secs(30),
        inactive_limit: duration_of_secs(40),
        max_failures: 1,
    }
}

impl Default for PingConfig {
    fn default() -> (r: Self)
        ensures
            r@ == default_ping(),
    {
        PingConfig {
            ping_interval: Duration::from_secs(30),
            max_failures: 1,
            inactive_limit: Duration::from_secs(40),
        }
    }
}

impl PingConfig {
    #[verifier::type_invariant]
    spec fn well_formed(self) -> bool {
        self.max_failures > 0
    }

    /// Create a new PingConfig.
    pub fn new() -> (r: Self)
        ensures
            r@ == default_ping(),
    {
        Self::default()
    }

    /// Configure the interval when the WebSocket pings are sent out.
    pub fn ping_interval(self, ping_interval: Duration) -> (r: Self)
        ensures
            r@ == (PingSettings { ping_interval, ..self@ }),
    {
        proof {
            use_type_invariant(&self);
        }
        PingConfig { ping_interval, ..self }
    }

    /// Configure how long to wait for the WebSocket pong.
    /// When this limit is expired it's regarded as the client is unresponsive.
    ///
    /// You may configure how many times the client is allowed to be "inactive" by
    /// [`PingConfig::max_failures`].
    pub fn inactive_limit(self, inactivity_limit: Duration) -> (r: Self)
        ensures
            r@ == (PingSettings { inactive_limit: inactivity_limit, ..self@ }),
    {
        proof {
            use_type_invariant(&self);
        }
        PingConfig { inactive_limit: inactivity_limit, ..self }
    }

    /// Configure how many times the remote peer is allowed be
    /// inactive until the connection is closed.
    ///
    /// `max` must not be zero. That is not tested here: a caller that is not verified has to, since
    /// the result would allow no inactivity at all, which no configuration may.
    pub fn max_failures(self, max: usize) -> (r: Self)
        requires
            max > 0,
        ensures
            r@ == (PingSettings { max_failures: max, ..self@ }),
    {
        PingConfig { max_failures: max, ..self }
    }

    /// The interval, the inactivity limit and the number of failures that are allowed, which is
    /// never zero.
    pub fn settings(&self) -> (r: PingSettings)
        ensures
            r == self@,
            r.max_failures > 0,
    {
        proof {
            use_type_invariant(self);
        }
        PingSettings {
            ping_interval: self.ping_interval,
            inactive_limit: self.inactive_limit,
            max_failures: self.max_failures,
        }
    }
}

/// Configuration for batch request handling.
#[derive(Debug, Copy, Clone, PartialEq, Eq, Structural)]
pub enum BatchRequestConfig {
    /// Batch requests are disabled.
    Disabled,
    /// Each batch request is limited to `len` and any batch request bigger than `len` will not be processed.
    Limit(u32),
    /// The batch request is unlimited.
    Unlimited,
}

/// What a [`ServerConfigBuilder`] and the [`ServerConfig`] that it builds hold.
pub struct Settings {
    /// Maximum size in bytes of a request.
    pub max_request_body_size: u32,
    /// Maximum size in bytes of a response.
    pub max_response_body_size: u32,
    /// Maximum number of incoming connections allowed.
    pub max_connections: u32,
    /// Maximum number of subscriptions per connection.
    pub max_subscriptions_per_connection: u32,
    /// Whether batch requests are supported by this server or not.
    pub batch_requests_config: BatchRequestConfig,
    /// Custom tokio runtime to run the server on.
    pub tokio_runtime: Option<tokio::runtime::Handle>,
    /// Enable HTTP.
    pub enable_http: bool,
    /// Enable WS.
    pub enable_ws: bool,
    /// Number of messages that server is allowed to `buffer` until backpressure kicks in.
    pub message_buffer_capacity: u32,
    /// Ping settings.
    pub ping_config: Option<PingConfig>,
    /// ID provider; random integers where there is none.
    pub id_provider: Option<Arc<dyn IdProvider>>,
    /// `TCP_NODELAY` settings.
    pub tcp_no_delay: bool,
    /// Message encryption implementation.
    pub message_encryption: Option<Arc<dyn MessageEncryption>>,
    /// Message encryption/decryption error handling policy.
    pub message_crypto_error_policy: MessageCryptoErrorPolicy,
}

impl Settings {
    /// `other` are the settings of a clone: the same, but for the handle of the runtime, which is a
    /// clone itself.
    pub open spec fn cloned_as(self, other: Settings) -> bool {
        &&& other == Settings { tokio_runtime: other.tokio_runtime, ..self }
        &&& match (self.tokio_runtime, other.tokio_runtime) {
            (Some(a), Some(b)) => cloned(a, b),
            (None, None) => true,
            _ => false,
        }
    }

    /// Messages can be buffered, and at least one of the two transports is served.
    pub open spec fn valid(self) -> bool {
        &&& self.message_buffer_capacity > 0
        &&& self.enable_http || self.enable_ws
    }
}

/// The default configuration of a server.
pub open spec fn default_settings() -> Settings {
    Settings {
        max_request_body_size: TEN_MB_SIZE_BYTES,
        max_response_body_size: TEN_MB_SIZE_BYTES,
        max_connections: MAX_CONNECTIONS,
        max_subscriptions_per_connection: 1024,
        batch_requests_config: BatchRequestConfig::Unlimited,
        tokio_runtime: None,
        enable_http: true,
        enable_ws: true,
        message_buffer_capacity: 1024,
        ping_config: None,
        id_provider: None,
        tcp_no_delay: true,
        message_encryption: None,
        message_crypto_error_policy: MessageCryptoErrorPolicy::SendError,
    }
}

/// Another owner of the same value, where there is one.
pub(crate) fn share<T: ?Sized>(value: &Option<Arc<T>>) -> (r: Option<Arc<T>>)
    ensures
        r == *value,
{
    match value {
        Some(shared) => Some(Arc::clone(shared)),
        None => None,
    }
}

/// Static server configuration which is shared per connection.
pub struct ServerConfig {
    /// Maximum size in bytes of a request.
    max_request_body_size: u32,
    /// Maximum size in bytes of a response.
    max_response_body_size: u32,
    /// Maximum number of incoming connections allowed.
    max_connections: u32,
    /// Maximum number of subscriptions per connection.
    max_subscriptions_per_connection: u32,
    /// Whether batch requests are supported by this server or not.
    batch_requests_config: BatchRequestConfig,
    /// Custom tokio runtime to run the server on.
    tokio_runtime: Option<tokio::runtime::Handle>,
    /// Enable HTTP.
    enable_http: bool,
    /// Enable WS.
    enable_ws: bool,
    /// Number of messages that server is allowed to `buffer` until backpressure kicks in.
    message_buffer_capacity: u32,
    /// Ping settings.
    ping_config: Option<PingConfig>,
    /// ID provider; random integers where there is none.
    id_provider: Option<Arc<dyn IdProvider>>,
    /// `TCP_NODELAY` settings.
    tcp_no_delay: bool,
    /// Message encryption implementation.
    message_encryption: Option<Arc<dyn MessageEncryption>>,
    /// Message encryption/decryption error handling policy.
    message_crypto_error_policy: MessageCryptoErrorPolicy,
}

impl View for ServerConfig {
    type V = Settings;

    closed spec fn view(&self) -> Settings {
        Settings {
            max_request_body_size: self.max_request_body_size,
            max_response_body_size: self.max_response_body_size,
            max_connections: self.max_connections,
            max_subscriptions_per_connection: self.max_subscriptions_per_connection,
            batch_requests_config: self.batch_requests_config,
            tokio_runtime: self.tokio_runtime,
            enable_http: self.enable_http,
            enable_ws: self.enable_ws,
            message_buffer_capacity: self.message_buffer_capacity,
            ping_config: self.ping_config,
            id_provider: self.id_provider,
            tcp_no_delay: self.tcp_no_delay,
            message_encryption: self.message_encryption,
            message_crypto_error_policy: self.message_crypto_error_policy,
        }
    }
}

/// The builder to configure and create a JSON-RPC server configuration.
pub struct ServerConfigBuilder {
    /// Maximum size in bytes of a request.
    max_request_body_size: u32,
    /// Maximum size in bytes of a response.
    max_response_body_size: u32,
    /// Maximum number of incoming connections allowed.
    max_connections: u32,
    /// Maximum number of subscriptions per connection.
    max_subscriptions_per_connection: u32,
    /// Whether batch requests are supported by this server or not.
    batch_requests_config: BatchRequestConfig,
    /// Custom tokio runtime to run the server on.
    tokio_runtime: Option<tokio::runtime::Handle>,
    /// Enable HTTP.
    enable_http: bool,
    /// Enable WS.
    enable_ws: bool,
    /// Number of messages that server is allowed to `buffer` until backpressure kicks in.
    message_buffer_capacity: u32,
    /// Ping settings.
    ping_config: Option<PingConfig>,
    /// ID provider; random integers where there is none.
    id_provider: Option<Arc<dyn IdProvider>>,
    /// `TCP_NODELAY` settings.
    tcp_no_delay: bool,
    /// Message encryption implementation.
    message_encryption: Option<Arc<dyn MessageEncryption>>,
    /// Message encryption/decryption error handling policy.
    message_crypto_error_policy: MessageCryptoErrorPolicy,
}

impl View for ServerConfigBuilder {
    type V = Settings;

    closed spec fn view(&self) -> Settings {
        Settings {
            max_request_body_size: self.max_request_body_size,
            max_response_body_size: self.max_response_body_size,
            max_connections: self.max_connections,
            max_subscriptions_per_connection: self.max_subscriptions_per_connection,
            batch_requests_config: self.batch_requests_config,
            tokio_runtime: self.tokio_runtime,
            enable_http: self.enable_http,
            enable_ws: self.enable_ws,
            message_buffer_capacity: self.message_buffer_capacity,
            ping_config: self.ping_config,
            id_provider: self.id_provider,
            tcp_no_delay: self.tcp_no_delay,
            message_encryption: self.message_encryption,
            message_crypto_error_policy: self.message_crypto_error_policy,
        }
    }
}

impl Clone for ServerConfig {
    fn clone(&self) -> (r: Self)
        ensures
            self@.cloned_as(r@),
    {
        proof {
            use_type_invariant(self);
        }
        ServerConfig {
            max_request_body_size: self.max_request_body_size,
            max_response_body_size: self.max_response_body_size,
            max_connections: self.max_connections,
            max_subscriptions_per_connection: self.max_subscriptions_per_connection,
            batch_requests_config: self.batch_requests_config,
            tokio_runtime: self.tokio_runtime.clone(),
            enable_http: self.enable_http,
            enable_ws: self.enable_ws,
            message_buffer_capacity: self.message_buffer_capacity,
            ping_config: self.ping_config,
            id_provider: share(&self.id_provider),
            tcp_no_delay: self.tcp_no_delay,
            message_encryption: share(&self.message_encryption),
            message_crypto_error_policy: self.message_crypto_error_policy,
        }
    }
}

impl Default for ServerConfig {
    fn default() -> (r: Self)
        ensures
            r@ == default_settings(),
    {
        ServerConfig::builder().build()
    }
}

impl ServerConfig {
    #[verifier::type_invariant]
    spec fn well_formed(self) -> bool {
        self@.valid()
    }

    /// Create a new builder for the [`ServerConfig`].
    pub fn builder() -> (r: ServerConfigBuilder)
        ensures
            r@ == default_settings(),
    {
        ServerConfigBuilder::default()
    }

    /// Maximum size in bytes of a request.
    pub fn max_request_body_size(&self) -> (r: u32)
        ensures
            r == self@.max_request_body_size,
    {
        self.max_request_body_size
    }

    /// Maximum size in bytes of a response.
    pub fn max_response_body_size(&self) -> (r: u32)
        ensures
            r == self@.max_response_body_size,
    {
        self.max_response_body_size
    }

    /// Maximum number of incoming connections allowed.
    pub fn max_connections(&self) -> (r: u32)
        ensures
            r == self@.max_connections,
    {
        self.max_connections
    }

    /// Maximum number of subscriptions per connection.
    pub fn max_subscriptions_per_connection(&self) -> (r: u32)
        ensures
            r == self@.max_subscriptions_per_connection,
    {
        self.max_subscriptions_per_connection
    }

    /// Whether batch requests are supported by this server or not.
    pub fn batch_requests_config(&self) -> (r: BatchRequestConfig)
        ensures
            r == self@.batch_requests_config,
    {
        self.batch_requests_config
    }

    /// Whether HTTP is served; one of the two always is.
    pub fn enable_http(&self) -> (r: bool)
        ensures
            r == self@.enable_http,
            r || self@.enable_ws,
    {
        proof {
            use_type_invariant(self);
        }
        self.enable_http
    }

    /// Whether WS is served; one of the two always is.
    pub fn enable_ws(&self) -> (r: bool)
        ensures
            r == self@.enable_ws,
            r || self@.enable_http,
    {
        proof {
            use_type_invariant(self);
        }
        self.enable_ws
    }

    /// Number of messages that server is allowed to `buffer` until backpressure kicks in. Never zero.
    pub fn message_buffer_capacity(&self) -> (r: u32)
        ensures
            r == self@.message_buffer_capacity,
            r > 0,
    {
        proof {
            use_type_invariant(self);
        }
        self.message_buffer_capacity
    }

    /// Ping settings.
    pub fn ping_config(&self) -> (r: Option<PingConfig>)
        ensures
            r == self@.ping_config,
    {
        self.ping_config
    }

    /// ID provider; random integers where there is none.
    pub fn id_provider(&self) -> (r: &Option<Arc<dyn IdProvider>>)
        ensures
            *r == self@.id_provider,
    {
        &self.id_provider
    }

    /// `TCP_NODELAY` settings.
    pub fn tcp_no_delay(&self) -> (r: bool)
        ensures
            r == self@.tcp_no_delay,
    {
        self.tcp_no_delay
    }

    /// Message encryption implementation.
    pub fn message_encryption(&self) -> (r: &Option<Arc<dyn MessageEncryption>>)
        ensures
            *r == self@.message_encryption,
    {
        &self.message_encryption
    }

    /// Message encryption/decryption error handling policy.
    pub fn message_crypto_error_policy(&self) -> (r: MessageCryptoErrorPolicy)
        ensures
            r == self@.message_crypto_error_policy,
    {
        self.message_crypto_error_policy
    }

    /// What is shown of the configuration when it is printed.
    pub fn summary(&self) -> (r: summary::ServerConfig<'_>)
        ensures
            r.shows(self@),
    {
        summary::ServerConfig {
            max_request_body_size: self.max_request_body_size,
            max_response_body_size: self.max_response_body_size,
            max_connections: self.max_connections,
            max_subscriptions_per_connection: self.max_subscriptions_per_connection,
            batch_requests_config: self.batch_requests_config,
            tokio_runtime: &self.tokio_runtime,
            enable_http: self.enable_http,
            enable_ws: self.enable_ws,
            message_buffer_capacity: self.message_buffer_capacity,
            ping_config: self.ping_config,
            id_provider: "Arc<dyn IdProvider>",
            tcp_no_delay: self.tcp_no_delay,
            message_encryption: self.message_encryption.is_some(),
        }
    }

    /// The configuration with another message encryption.
    pub(crate) fn with_message_encryption(
        self,
        message_encryption: Option<Arc<dyn MessageEncryption>>,
    ) -> (r: Self)
        ensures
            r@ == (Settings { message_encryption, ..self@ }),
    {
        proof {
            use_type_invariant(&self);
        }
        ServerConfig { message_encryption, ..self }
    }

    /// The configuration with another policy for failures of message encryption.
    pub(crate) fn with_message_crypto_error_policy(self, policy: MessageCryptoErrorPolicy) -> (r:
        Self)
        ensures
            r@ == (Settings { message_crypto_error_policy: policy, ..self@ }),
    {
        proof {
            use_type_invariant(&self);
        }
        ServerConfig { message_crypto_error_policy: policy, ..self }
    }

    /// Takes the custom runtime out of the configuration.
    pub fn take_runtime(&mut self) -> (r: Option<tokio::runtime::Handle>)
        ensures
            r == old(self)@.tokio_runtime,
            final(self)@ == (Settings { tokio_runtime: None, ..old(self)@ }),
    {
        proof {
            use_type_invariant(&*self);
        }
        let mut runtime: Option<tokio::runtime::Handle> = None;
        std::mem::swap(&mut runtime, &mut self.tokio_runtime);
        runtime
    }
}

impl Clone for ServerConfigBuilder {
    fn clone(&self) -> (r: Self)
        ensures
            self@.cloned_as(r@),
    {
        proof {
            use_type_invariant(self);
        }
        ServerConfigBuilder {
            max_request_body_size: self.max_request_body_size,
            max_response_body_size: self.max_response_body_size,
            max_connections: self.max_connections,
            max_subscriptions_per_connection: self.max_subscriptions_per_connection,
            batch_requests_config: self.batch_requests_config,
            tokio_runtime: self.tokio_runtime.clone(),
            enable_http: self.enable_http,
            enable_ws: self.enable_ws,
            message_buffer_capacity: self.message_buffer_capacity,
            ping_config: self.ping_config,
            id_provider: share(&self.id_provider),
            tcp_no_delay: self.tcp_no_delay,
            message_encryption: share(&self.message_encryption),
            message_crypto_error_policy: self.message_crypto_error_policy,
        }
    }
}

impl Default for ServerConfigBuilder {
    fn default() -> (r: Self)
        ensures
            r@ == default_settings(),
    {
        ServerConfigBuilder {
            max_request_body_size: TEN_MB_SIZE_BYTES,
            max_response_body_size: TEN_MB_SIZE_BYTES,
            max_connections: MAX_CONNECTIONS,
            max_subscriptions_per_connection: 1024,
            batch_requests_config: BatchRequestConfig::Unlimited,
            tokio_runtime: None,
            enable_http: true,
            enable_ws: true,
            message_buffer_capacity: 1024,
            ping_config: None,
            id_provider: None,
            tcp_no_delay: true,
            message_encryption: None,
            message_crypto_error_policy: MessageCryptoErrorPolicy::default(),
        }
    }
}

impl ServerConfigBuilder {
    #[verifier::type_invariant]
    spec fn well_formed(self) -> bool {
        self@.valid()
    }

    /// Create a new [`ServerConfigBuilder`].
    pub fn new() -> (r: Self)
        ensures
            r@ == default_settings(),
    {
        Self::default()
    }

    /// Set the maximum size of a request body in bytes. Default is 10 MiB.
    pub fn max_request_body_size(self, size: u32) -> (r: Self)
        ensures
            r@ == (Settings { max_request_body_size: size, ..self@ }),
    {
        proof {
            use_type_invariant(&self);
        }
        ServerConfigBuilder { max_request_body_size: size, ..self }
    }

    /// Set the maximum size of a response body in bytes. Default is 10 MiB.
    pub fn max_response_body_size(self, size: u32) -> (r: Self)
        ensures
            r@ == (Settings { max_response_body_size: size, ..self@ }),
    {
        proof {
            use_type_invariant(&self);
        }
        ServerConfigBuilder { max_response_body_size: size, ..self }
    }

    /// Set the maximum number of connections allowed. Default is 100.
    pub fn max_connections(self, max: u32) -> (r: Self)
        ensures
            r@ == (Settings { max_connections: max, ..self@ }),
    {
        proof {
            use_type_invariant(&self);
        }
        ServerConfigBuilder { max_connections: max, ..self }
    }

    /// Set the maximum number of subscriptions per connection. Default is 1024.
    pub fn max_subscriptions_per_connection(self, max: u32) -> (r: Self)
        ensures
            r@ == (Settings { max_subscriptions_per_connection: max, ..self@ }),
    {
        proof {
            use_type_invariant(&self);
        }
        ServerConfigBuilder { max_subscriptions_per_connection: max, ..self }
    }

    /// Configure how batch requests shall be handled
    /// by the server.
    ///
    /// Default: batch requests are allowed and can be arbitrary big but the maximum payload size is limited.
    pub fn set_batch_request_config(self, cfg: BatchRequestConfig) -> (r: Self)
        ensures
            r@ == (Settings { batch_requests_config: cfg, ..self@ }),
    {
        proof {
            use_type_invariant(&self);
        }
        ServerConfigBuilder { batch_requests_config: cfg, ..self }
    }

    /// Configure a custom [`tokio::runtime::Handle`] to run the server on.
    ///
    /// Default: the runtime that the server is started from.
    pub fn custom_tokio_runtime(self, rt: tokio::runtime::Handle) -> (r: Self)
        ensures
            r@ == (Settings { tokio_runtime: Some(rt), ..self@ }),
    {
        proof {
            use_type_invariant(&self);
        }
        ServerConfigBuilder { tokio_runtime: Some(rt), ..self }
    }

    /// Configure the server to only serve JSON-RPC HTTP requests.
    ///
    /// Default: both http and ws are enabled.
    pub fn http_only(self) -> (r: Self)
        ensures
            r@ == (Settings { enable_http: true, enable_ws: false, ..self@ }),
    {
        proof {
            use_type_invariant(&self);
        }
        ServerConfigBuilder { enable_http: true, enable_ws: false, ..self }
    }

    /// Configure the server to only serve JSON-RPC WebSocket requests.
    ///
    /// That implies that server just denies HTTP requests which isn't a WebSocket upgrade request
    ///
    /// Default: both http and ws are enabled.
    pub fn ws_only(self) -> (r: Self)
        ensures
            r@ == (Settings { enable_http: false, enable_ws: true, ..self@ }),
    {
        proof {
            use_type_invariant(&self);
        }
        ServerConfigBuilder { enable_http: false, enable_ws: true, ..self }
    }

    /// The server enforces backpressure which means that
    /// `n` messages can be buffered and if the client
    /// can't keep with up the server.
    ///
    /// This `capacity` is applied per connection and
    /// applies globally on the connection which implies
    /// all JSON-RPC messages.
    ///
    /// For example if a subscription produces plenty of new items
    /// and the client can't keep up then no new messages are handled.
    ///
    /// If this limit is exceeded then the server will "back-off"
    /// and only accept new messages once the client reads pending messages.
    ///
    /// The capacity must not be zero. That is not tested here: a caller that is not verified has to,
    /// since no message could ever be sent by a server with the result.
    pub fn set_message_buffer_capacity(self, c: u32) -> (r: Self)
        requires
            c > 0,
        ensures
            r@ == (Settings { message_buffer_capacity: c, ..self@ }),
    {
        proof {
            use_type_invariant(&self);
        }
        ServerConfigBuilder { message_buffer_capacity: c, ..self }
    }

    /// Enable WebSocket ping/pong on the server.
    ///
    /// Default: pings are disabled.
    pub fn enable_ws_ping(self, config: PingConfig) -> (r: Self)
        ensures
            r@ == (Settings { ping_config: Some(config), ..self@ }),
    {
        proof {
            use_type_invariant(&self);
        }
        ServerConfigBuilder { ping_config: Some(config), ..self }
    }

    /// Disable WebSocket ping/pong on the server.
    ///
    /// Default: pings are disabled.
    pub fn disable_ws_ping(self) -> (r: Self)
        ensures
            r@ == (Settings { ping_config: None, ..self@ }),
    {
        proof {
            use_type_invariant(&self);
        }
        ServerConfigBuilder { ping_config: None, ..self }
    }

    /// Configure custom `subscription ID` provider for the server to use
    /// to when getting new subscription calls.
    ///
    /// Default: random integers.
    pub fn set_id_provider(self, id_provider: Arc<dyn IdProvider>) -> (r: Self)
        ensures
            ({
                let id_provider = Some(id_provider);
                r@ == Settings { id_provider, ..self@ }
            }),
    {
        proof {
            use_type_invariant(&self);
        }
        let id_provider = Some(id_provider);
        ServerConfigBuilder { id_provider, ..self }
    }

    /// Configure `TCP_NODELAY` on the socket to the supplied value `nodelay`.
    ///
    /// Default is `true`.
    pub fn set_tcp_no_delay(self, no_delay: bool) -> (r: Self)
        ensures
            r@ == (Settings { tcp_no_delay: no_delay, ..self@ }),
    {
        proof {
            use_type_invariant(&self);
        }
        ServerConfigBuilder { tcp_no_delay: no_delay, ..self }
    }

    /// Set custom message encryption implementation.
    ///
    /// This enables encryption/decryption of JSON-RPC messages sent over WebSocket.
    /// The encryption is applied to the entire JSON-RPC message string.
    pub fn set_message_encryption(self, encryption: Arc<dyn MessageEncryption>) -> (r: Self)
        ensures
            ({
                let message_encryption = Some(encryption);
                r@ == Settings { message_encryption, ..self@ }
            }),
    {
        proof {
            use_type_invariant(&self);
        }
        let message_encryption = Some(encryption);
        ServerConfigBuilder { message_encryption, ..self }
    }

    /// Set message encryption/decryption error handling policy.
    pub fn set_message_crypto_error_policy(self, policy: MessageCryptoErrorPolicy) -> (r: Self)
        ensures
            r@ == (Settings { message_crypto_error_policy: policy, ..self@ }),
    {
        proof {
            use_type_invariant(&self);
        }
        ServerConfigBuilder { message_crypto_error_policy: policy, ..self }
    }

    /// What is shown of the builder when it is printed.
    pub fn summary(&self) -> (r: summary::ServerConfigBuilder<'_>)
        ensures
            r.shows(self@),
    {
        summary::ServerConfigBuilder {
            max_request_body_size: self.max_request_body_size,
            max_response_body_size: self.max_response_body_size,
            max_connections: self.max_connections,
            max_subscriptions_per_connection: self.max_subscriptions_per_connection,
            batch_requests_config: self.batch_requests_config,
            tokio_runtime: &self.tokio_runtime,
            enable_http: self.enable_http,
            enable_ws: self.enable_ws,
            message_buffer_capacity: self.message_buffer_capacity,
            ping_config: self.ping_config,
            id_provider: "Arc<dyn IdProvider>",
            tcp_no_delay: self.tcp_no_delay,
            message_encryption: self.message_encryption.is_some(),
        }
    }

    /// Build the [`ServerConfig`].
    pub fn build(self) -> (r: ServerConfig)
        ensures
            r@ == self@,
            r@.valid(),
    {
        proof {
            use_type_invariant(&self);
        }
        ServerConfig {
            max_request_body_size: self.max_request_body_size,
            max_response_body_size: self.max_response_body_size,
            max_connections: self.max_connections,
            max_subscriptions_per_connection: self.max_subscriptions_per_connection,
            batch_requests_config: self.batch_requests_config,
            tokio_runtime: self.tokio_runtime,
            enable_http: self.enable_http,
            enable_ws: self.enable_ws,
            message_buffer_capacity: self.message_buffer_capacity,
            ping_config: self.ping_config,
            id_provider: self.id_provider,
            tcp_no_delay: self.tcp_no_delay,
            message_encryption: self.message_encryption,
            message_crypto_error_policy: self.message_crypto_error_policy,
        }
    }
}

} // verus!
