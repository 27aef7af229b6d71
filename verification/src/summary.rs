//! What is shown of a server and its configuration when they are printed.
//!
//! The types are named like those that they are shown for. Neither the provider of ids nor the
//! encryption is shown itself.

use crate::config::{BatchRequestConfig, PingConfig, Settings};
use vstd::prelude::*;

verus! {

/// What is shown of a [`crate::config::ServerConfig`].
#[derive(Debug)]
pub struct ServerConfig<'a> {
    pub max_request_body_size: u32,
    pub max_response_body_size: u32,
    pub max_connections: u32,
    pub max_subscriptions_per_connection: u32,
    pub batch_requests_config: BatchRequestConfig,
    pub tokio_runtime: &'a Option<tokio::runtime::Handle>,
    pub enable_http: bool,
    pub enable_ws: bool,
    pub message_buffer_capacity: u32,
    pub ping_config: Option<PingConfig>,
    pub id_provider: &'static str,
    pub tcp_no_delay: bool,
    pub message_encryption: bool,
}

/// What is shown of a [`crate::config::ServerConfigBuilder`].
#[derive(Debug)]
pub struct ServerConfigBuilder<'a> {
    pub max_request_body_size: u32,
    pub max_response_body_size: u32,
    pub max_connections: u32,
    pub max_subscriptions_per_connection: u32,
    pub batch_requests_config: BatchRequestConfig,
    pub tokio_runtime: &'a Option<tokio::runtime::Handle>,
    pub enable_http: bool,
    pub enable_ws: bool,
    pub message_buffer_capacity: u32,
    pub ping_config: Option<PingConfig>,
    pub id_provider: &'static str,
    pub tcp_no_delay: bool,
    pub message_encryption: bool,
}

/// What is shown of a [`crate::builder::Server`].
#[derive(Debug)]
pub struct Server<'a, L> {
    pub listener: &'a L,
    pub server_cfg: ServerConfig<'a>,
}

impl<'a> ServerConfig<'a> {
    /// The summary shows the settings.
    pub open spec fn shows(self, settings: Settings) -> bool {
        &&& self.max_request_body_size == settings.max_request_body_size
        &&& self.max_response_body_size == settings.max_response_body_size
        &&& self.max_connections == settings.max_connections
        &&& self.max_subscriptions_per_connection == settings.max_subscriptions_per_connection
        &&& self.batch_requests_config == settings.batch_requests_config
        &&& *self.tokio_runtime == settings.tokio_runtime
        &&& self.enable_http == settings.enable_http
        &&& self.enable_ws == settings.enable_ws
        &&& self.message_buffer_capacity == settings.message_buffer_capacity
        &&& self.ping_config == settings.ping_config
        &&& self.id_provider@ == "Arc<dyn IdProvider>"@
        &&& self.tcp_no_delay == settings.tcp_no_delay
        &&& self.message_encryption == settings.message_encryption is Some
    }
}

impl<'a> ServerConfigBuilder<'a> {
    /// The summary shows the settings.
    pub open spec fn shows(self, settings: Settings) -> bool {
        &&& self.max_request_body_size == settings.max_request_body_size
        &&& self.max_response_body_size == settings.max_response_body_size
        &&& self.max_connections == settings.max_connections
        &&& self.max_subscriptions_per_connection == settings.max_subscriptions_per_connection
        &&& self.batch_requests_config == settings.batch_requests_config
        &&& *self.tokio_runtime == settings.tokio_runtime
        &&& self.enable_http == settings.enable_http
        &&& self.enable_ws == settings.enable_ws
        &&& self.message_buffer_capacity == settings.message_buffer_capacity
        &&& self.ping_config == settings.ping_config
        &&& self.id_provider@ == "Arc<dyn IdProvider>"@
        &&& self.tcp_no_delay == settings.tcp_no_delay
        &&& self.message_encryption == settings.message_encryption is Some
    }
}

} // verus!
