use jsonrpsee_server::builder::Builder;
use jsonrpsee_server::config::{
    BatchRequestConfig, PingConfig, ServerConfig, ServerConfigBuilder, MAX_CONNECTIONS,
    TEN_MB_SIZE_BYTES,
};
use jsonrpsee_server::traits::{
    rpc_params, IdProvider, MessageCryptoError, MessageCryptoErrorPolicy, MessageEncryption, SubscriptionId,
};
use std::sync::Arc;
use std::time::Duration;

struct FixedId;

impl IdProvider for FixedId {
    fn next_id(&self) -> SubscriptionId {
        SubscriptionId::Str("fixed".to_string())
    }
}

struct Reverse;

impl MessageEncryption for Reverse {
    fn encrypt(&self, data: &str) -> Result<String, MessageCryptoError> {
        Ok(data.chars().rev().collect())
    }

    fn decrypt(&self, data: &str) -> Result<String, MessageCryptoError> {
        if data.is_empty() {
            return Err(MessageCryptoError { reason: "empty".to_string() });
        }
        Ok(data.chars().rev().collect())
    }
}

#[test]
fn default_config() {
    let cfg = ServerConfig::default();
    assert_eq!(cfg.max_request_body_size(), 10_485_760);
    assert_eq!(cfg.max_response_body_size(), 10_485_760);
    assert_eq!(cfg.max_connections(), 100);
    assert_eq!(cfg.max_subscriptions_per_connection(), 1024);
    assert_eq!(cfg.batch_requests_config(), BatchRequestConfig::Unlimited);
    assert!(cfg.enable_http());
    assert!(cfg.enable_ws());
    assert_eq!(cfg.message_buffer_capacity(), 1024);
    assert!(cfg.ping_config().is_none());
    assert!(cfg.id_provider().is_none());
    assert!(cfg.tcp_no_delay());
    assert!(cfg.message_encryption().is_none());
    assert_eq!(cfg.message_crypto_error_policy(), MessageCryptoErrorPolicy::SendError);
    assert_eq!(TEN_MB_SIZE_BYTES, 10 * 1024 * 1024);
    assert_eq!(MAX_CONNECTIONS, 100);
}

#[test]
fn setters_change_what_they_name() {
    let cfg = ServerConfigBuilder::new()
        .max_request_body_size(1)
        .max_response_body_size(2)
        .max_connections(3)
        .max_subscriptions_per_connection(4)
        .set_batch_request_config(BatchRequestConfig::Limit(5))
        .set_message_buffer_capacity(6)
        .set_tcp_no_delay(false)
        .set_message_crypto_error_policy(MessageCryptoErrorPolicy::CloseConnection)
        .build();
    assert_eq!(cfg.max_request_body_size(), 1);
    assert_eq!(cfg.max_response_body_size(), 2);
    assert_eq!(cfg.max_connections(), 3);
    assert_eq!(cfg.max_subscriptions_per_connection(), 4);
    assert_eq!(cfg.batch_requests_config(), BatchRequestConfig::Limit(5));
    assert_eq!(cfg.message_buffer_capacity(), 6);
    assert!(!cfg.tcp_no_delay());
    assert_eq!(cfg.message_crypto_error_policy(), MessageCryptoErrorPolicy::CloseConnection);
    assert!(cfg.enable_http() && cfg.enable_ws());
}

#[test]
fn last_choice_of_transport_wins() {
    let http = ServerConfig::builder().ws_only().http_only().build();
    assert!(http.enable_http());
    assert!(!http.enable_ws());
    let ws = ServerConfig::builder().http_only().ws_only().build();
    assert!(!ws.enable_http());
    assert!(ws.enable_ws());
}

#[test]
fn default_ping_config() {
    let ping = PingConfig::new().settings();
    assert_eq!(ping.ping_interval, Duration::from_secs(30));
    assert_eq!(ping.inactive_limit, Duration::from_secs(40));
    assert_eq!(ping.max_failures, 1);
}

#[test]
fn ping_config_is_enabled_and_disabled() {
    let ping = PingConfig::new()
        .ping_interval(Duration::from_secs(10))
        .inactive_limit(Duration::from_secs(60 * 2))
        .max_failures(3);
    let builder = ServerConfigBuilder::default().enable_ws_ping(ping);
    let settings = builder.clone().build().ping_config().unwrap().settings();
    assert_eq!(settings.ping_interval, Duration::from_secs(10));
    assert_eq!(settings.inactive_limit, Duration::from_secs(120));
    assert_eq!(settings.max_failures, 3);
    assert!(builder.disable_ws_ping().build().ping_config().is_none());
}

#[test]
fn id_provider_behind_static_and_dynamic_dispatch() {
    let direct = ServerConfigBuilder::default().set_id_provider(Arc::new(FixedId)).build();
    let boxed: Box<dyn IdProvider> = Box::new(FixedId);
    let dynamic = ServerConfigBuilder::default().set_id_provider(Arc::new(boxed)).build();
    for cfg in [direct, dynamic] {
        let provider = cfg.id_provider().as_ref().unwrap();
        assert_eq!(provider.next_id(), SubscriptionId::Str("fixed".to_string()));
    }
}

#[test]
fn message_encryption_of_the_config() {
    let cfg = ServerConfigBuilder::default().set_message_encryption(Arc::new(Reverse)).build();
    let encryption = cfg.message_encryption().as_ref().unwrap();
    assert_eq!(encryption.encrypt("abc"), Ok("cba".to_string()));
    assert_eq!(encryption.decrypt("cba"), Ok("abc".to_string()));
    assert_eq!(
        encryption.decrypt(""),
        Err(MessageCryptoError { reason: "empty".to_string() })
    );
}

#[test]
fn message_encryption_of_the_builder() {
    let builder = Builder::new()
        .set_message_encryption(Arc::new(Reverse))
        .set_message_crypto_error_policy(MessageCryptoErrorPolicy::SkipMessage);
    assert!(builder.server_cfg.message_encryption().is_some());
    assert_eq!(
        builder.server_cfg.message_crypto_error_policy(),
        MessageCryptoErrorPolicy::SkipMessage
    );
    assert_eq!(builder.server_cfg.max_connections(), 100);
}

#[test]
fn clone_keeps_the_config() {
    let cfg = ServerConfigBuilder::default()
        .max_connections(7)
        .ws_only()
        .set_id_provider(Arc::new(FixedId))
        .build();
    let copy = cfg.clone();
    assert_eq!(copy.max_connections(), 7);
    assert!(!copy.enable_http());
    assert!(copy.id_provider().is_some());
}

#[test]
fn runtime_is_taken_once() {
    let runtime = tokio::runtime::Builder::new_current_thread().build().unwrap();
    let mut cfg =
        ServerConfigBuilder::default().custom_tokio_runtime(runtime.handle().clone()).build();
    assert!(cfg.take_runtime().is_some());
    assert!(cfg.take_runtime().is_none());
}

#[test]
fn default_policy_sends_errors() {
    assert_eq!(MessageCryptoErrorPolicy::default(), MessageCryptoErrorPolicy::SendError);
}

#[test]
fn printed_config() {
    let cfg = ServerConfig::default();
    assert_eq!(
        format!("{:?}", cfg.summary()),
        "ServerConfig { max_request_body_size: 10485760, max_response_body_size: 10485760, \
         max_connections: 100, max_subscriptions_per_connection: 1024, \
         batch_requests_config: Unlimited, tokio_runtime: None, enable_http: true, \
         enable_ws: true, message_buffer_capacity: 1024, ping_config: None, \
         id_provider: \"Arc<dyn IdProvider>\", tcp_no_delay: true, message_encryption: false }"
    );
}

#[test]
fn printed_builder() {
    let builder = ServerConfigBuilder::default()
        .enable_ws_ping(PingConfig::new())
        .set_message_encryption(Arc::new(Reverse))
        .http_only();
    assert_eq!(
        format!("{:?}", builder.summary()),
        "ServerConfigBuilder { max_request_body_size: 10485760, \
         max_response_body_size: 10485760, max_connections: 100, \
         max_subscriptions_per_connection: 1024, batch_requests_config: Unlimited, \
         tokio_runtime: None, enable_http: true, enable_ws: false, \
         message_buffer_capacity: 1024, ping_config: Some(PingConfig { ping_interval: 30s, \
         inactive_limit: 40s, max_failures: 1 }), id_provider: \"Arc<dyn IdProvider>\", \
         tcp_no_delay: true, message_encryption: true }"
    );
}

#[test]
fn printed_server() {
    let server = Builder::new().build(Ok::<&str, String>("listener")).unwrap();
    let text = format!("{:?}", server.summary());
    assert!(text.starts_with("Server { listener: \"listener\", server_cfg: ServerConfig { "));
}

#[test]
fn serialized_params_are_present() {
    assert_eq!(rpc_params::<&str, String>(Ok("[1,2]")), Ok(Some("[1,2]")));
    assert_eq!(rpc_params::<&str, String>(Err("no".to_string())), Err("no".to_string()));
}
