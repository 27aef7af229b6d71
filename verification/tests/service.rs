use jsonrpsee_server::accept::{
    connection_step, process_connection, try_accept_conn, AcceptConnection, AcceptEvent,
    AcceptLoop, ConnectionAction, ConnectionEvent, ConnectionPhase, ProcessConnection,
    ServerAction, ServerPhase,
};
use jsonrpsee_server::builder::{Builder, ConnectionIds, Server};
use jsonrpsee_server::config::{BatchRequestConfig, ServerConfig};
use jsonrpsee_server::connection_manager::ConnectionId;
use jsonrpsee_server::handshake::RequestHead;
use jsonrpsee_server::service::{
    route, CallAction, ConnectionGuard, Route, RpcServiceBuilder, TowerService,
    TowerServiceNoHttp,
};
use jsonrpsee_server::traits::{
    IdProvider, MessageCryptoError, MessageEncryption, SubscriptionId,
};
use std::sync::Arc;
use tower::layer::util::Identity;

type Service = TowerService<Identity, Identity, u8, u16, u64>;

struct FixedId;

impl IdProvider for FixedId {
    fn next_id(&self) -> SubscriptionId {
        SubscriptionId::Num(3)
    }
}

struct Plain;

impl MessageEncryption for Plain {
    fn encrypt(&self, data: &str) -> Result<String, MessageCryptoError> {
        Ok(format!("plain {data}"))
    }

    fn decrypt(&self, data: &str) -> Result<String, MessageCryptoError> {
        Ok(data.to_string())
    }
}

fn plain() -> RequestHead {
    RequestHead {
        connection: vec![b"keep-alive".to_vec()],
        upgrade: vec![],
        key: vec![],
        version: vec![],
        extensions: vec![],
    }
}

fn upgrade() -> RequestHead {
    RequestHead {
        connection: vec![b"keep-alive, Upgrade".to_vec()],
        upgrade: vec![b"WebSocket".to_vec()],
        key: vec![b"dGhlIHNhbXBsZSBub25jZQ==".to_vec()],
        version: vec![b"13".to_vec()],
        extensions: vec![b"permessage-deflate".to_vec()],
    }
}

fn service(config: ServerConfig) -> Service {
    Builder::with_config(config).to_service_builder().build(1, 2)
}

fn failure(head: &RequestHead) -> String {
    match service(ServerConfig::default()).rpc_middleware.call(head) {
        CallAction::HandshakeFailed { body } => body,
        _ => panic!("failure expected"),
    }
}

#[test]
fn routes() {
    let both = ServerConfig::default();
    assert_eq!(route(&both, true), Route::WebSocket);
    assert_eq!(route(&both, false), Route::Http);
    let ws = ServerConfig::builder().ws_only().build();
    assert_eq!(route(&ws, true), Route::WebSocket);
    assert_eq!(route(&ws, false), Route::Denied);
    let http = ServerConfig::builder().http_only().build();
    assert_eq!(route(&http, true), Route::Denied);
    assert_eq!(route(&http, false), Route::Http);
}

#[test]
fn http_request_is_served() {
    let config = ServerConfig::builder()
        .max_request_body_size(11)
        .max_response_body_size(12)
        .set_batch_request_config(BatchRequestConfig::Limit(3))
        .build();
    let mut service = service(config);
    let CallAction::Http { conn, call, conn_guard } = service.rpc_middleware.call(&plain()) else {
        panic!("HTTP expected");
    };
    assert_eq!(conn.stop_handle, 2);
    assert_eq!(conn.conn_id, 0);
    assert_eq!(call.conn_id, ConnectionId(0));
    assert_eq!(call.batch_requests_config, BatchRequestConfig::Limit(3));
    assert_eq!(conn_guard.available_connections(), 99);
    assert_eq!(call.max_request_body_size, 11);
    assert_eq!(call.max_response_body_size, 12);
}

#[test]
fn upgrade_request_is_served() {
    let config = ServerConfig::builder()
        .max_request_body_size(11)
        .max_response_body_size(12)
        .max_subscriptions_per_connection(13)
        .set_message_buffer_capacity(14)
        .set_id_provider(Arc::new(FixedId))
        .set_message_encryption(Arc::new(Plain))
        .build();
    let mut service = service(config);
    service.on_session_closed(|| 77, &|_: &u64| ());
    let CallAction::WebSocket {
        response,
        conn,
        session,
        conn_guard,
        message_encryption,
        id_provider,
        on_session_close,
    } = service.rpc_middleware.call(&upgrade())
    else {
        panic!("WebSocket expected");
    };
    assert_eq!(conn_guard.available_connections(), 99);
    assert_eq!(message_encryption.unwrap().encrypt("x"), Ok("plain x".to_string()));
    assert_eq!(id_provider.unwrap().next_id(), SubscriptionId::Num(3));
    assert_eq!(response.status, 101);
    assert_eq!(response.connection, b"upgrade");
    assert_eq!(response.upgrade, b"websocket");
    assert_eq!(response.accept, b"s3pPLMBiTxaQ9kYGzzhZRbK+xOo=");
    assert_eq!(conn.conn_id, 0);
    assert_eq!(session.conn_id, ConnectionId(0));
    assert_eq!(session.max_request_body_size, 11);
    assert_eq!(session.max_response_body_size, 12);
    assert_eq!(session.max_subscriptions_per_connection, 13);
    assert_eq!(session.message_buffer_capacity, 14);
    assert_eq!(on_session_close, Some(77));
    assert_eq!(service.rpc_middleware.on_session_close, None);
}

#[test]
fn faults_of_the_handshake() {
    let mut head = upgrade();
    head.key.clear();
    assert_eq!(
        failure(&head),
        "Could not upgrade connection: header Sec-WebSocket-Key not found"
    );
    let mut head = upgrade();
    head.version = vec![b"12".to_vec()];
    assert_eq!(
        failure(&head),
        "Could not upgrade connection: header Sec-WebSocket-Version not found"
    );
    let mut head = upgrade();
    head.version.clear();
    assert_eq!(
        failure(&head),
        "Could not upgrade connection: header Sec-WebSocket-Version not found"
    );
    let mut head = upgrade();
    head.key = vec![b"short".to_vec()];
    assert_eq!(failure(&head), "Could not upgrade connection: websocket key mismatch");
    let mut head = upgrade();
    head.extensions = vec![b"fine".to_vec(), vec![0xff]];
    assert!(failure(&head).starts_with("Could not upgrade connection: utf-8 decoding error: "));
}

#[test]
fn handshake_without_upgrade() {
    assert_eq!(plain().receive_request().unwrap_err(), "websocket key mismatch");
}

#[test]
fn first_value_of_a_header_counts() {
    let mut head = upgrade();
    head.version.push(b"12".to_vec());
    head.key.push(b"short".to_vec());
    assert!(head.receive_request().is_ok());
    head.version.insert(0, b"12".to_vec());
    assert!(head.receive_request().is_err());
}

#[test]
fn upgrade_is_read_from_lists_in_any_case() {
    assert!(!plain().is_upgrade_request());
    let mut head = plain();
    head.connection = vec![b"close".to_vec(), b" keep-alive ,\tUPGRADE ".to_vec()];
    head.upgrade = vec![b"h2c, webSocket".to_vec()];
    assert!(head.is_upgrade_request());
    head.upgrade = vec![b"web socket".to_vec()];
    assert!(!head.is_upgrade_request());
    head.upgrade = vec![b"websocket2".to_vec()];
    assert!(!head.is_upgrade_request());
}

#[test]
fn bytes_of_header_values() {
    assert!(upgrade().is_valid());
    let mut head = plain();
    head.extensions = vec![vec![9, 32, 126, 128, 255]];
    assert!(head.is_valid());
    for byte in [0, 10, 13, 31, 127] {
        head.extensions = vec![vec![byte]];
        assert!(!head.is_valid());
    }
}

#[test]
fn upgrade_is_denied_by_http_only() {
    let config = ServerConfig::builder().http_only().build();
    let action = service(config).rpc_middleware.call(&upgrade());
    assert!(matches!(action, CallAction::Denied));
}

#[test]
fn plain_request_is_denied_by_ws_only() {
    let config = ServerConfig::builder().ws_only().build();
    let action = service(config).rpc_middleware.call(&plain());
    assert!(matches!(action, CallAction::Denied));
}

#[test]
fn connections_are_limited_until_they_are_dropped() {
    let config = ServerConfig::builder().max_connections(1).build();
    let mut service = service(config);
    let guard = service.rpc_middleware.inner.conn_guard.clone();
    assert_eq!(guard.max_connections(), 1);
    assert_eq!(guard.available_connections(), 1);
    let first = service.rpc_middleware.call(&plain());
    assert!(matches!(first, CallAction::Http { .. }));
    assert_eq!(guard.available_connections(), 0);
    let second = service.rpc_middleware.call(&upgrade());
    assert!(matches!(second, CallAction::TooManyRequests));
    drop(first);
    assert_eq!(guard.available_connections(), 1);
    assert!(matches!(service.rpc_middleware.call(&plain()), CallAction::Http { .. }));
}

#[test]
fn denied_request_gives_its_permit_back() {
    let config = ServerConfig::builder().ws_only().max_connections(1).build();
    let mut service = service(config);
    for _ in 0..3 {
        assert!(matches!(service.rpc_middleware.call(&plain()), CallAction::Denied));
    }
}

#[test]
fn listener_of_the_session_is_kept() {
    let mut service = service(ServerConfig::default());
    assert_eq!(service.on_session_closed(|| 1, &|close: &u64| close * 10), 10);
    assert_eq!(service.on_session_closed(|| 2, &|close: &u64| close * 10), 10);
    assert_eq!(service.rpc_middleware.on_session_close, Some(1));
}

#[test]
fn ids_of_built_services() {
    let builder = Builder::new().to_service_builder().connection_id(5);
    let first: Service = builder.clone().build(1, 2);
    let second: Service = builder.clone().build(1, 2);
    let third: Service = builder.build(1, 2);
    assert_eq!(first.rpc_middleware.inner.conn_id, 5);
    assert_eq!(second.rpc_middleware.inner.conn_id, 6);
    assert_eq!(third.rpc_middleware.inner.conn_id, 7);
    assert!(third.rpc_middleware.on_session_close.is_none());
    let unset: Service = Builder::new().to_service_builder().build(1, 2);
    assert_eq!(unset.rpc_middleware.inner.conn_id, 0);
    let given: Service = Builder::new().to_service_builder().build_with_id(1, 2, 7);
    assert_eq!(given.rpc_middleware.inner.conn_id, 7);
    assert_eq!(given.rpc_middleware.inner.methods, 1);
    assert_eq!(given.rpc_middleware.inner.stop_handle, 2);
}

#[test]
fn configured_id_starts_anew() {
    let builder = Builder::new().to_service_builder();
    let used: Service = builder.clone().build(1, 2);
    assert_eq!(used.rpc_middleware.inner.conn_id, 0);
    let configured: Service = builder.connection_id(3).build(1, 2);
    assert_eq!(configured.rpc_middleware.inner.conn_id, 3);
}

#[test]
fn clones_of_a_builder_share_the_limit() {
    let builder = Builder::new().to_service_builder().max_connections(1);
    let mut first: Service = builder.clone().build(1, 2);
    let mut second: Service = builder.build(1, 2);
    let held = first.rpc_middleware.call(&plain());
    assert!(matches!(held, CallAction::Http { .. }));
    let refused = second.rpc_middleware.call(&plain());
    assert!(matches!(refused, CallAction::TooManyRequests));
    drop(held);
    let served = second.rpc_middleware.call(&upgrade());
    assert!(matches!(served, CallAction::WebSocket { .. }));
}

#[test]
fn connections_compete_for_the_permits_of_one_guard() {
    let guard = ConnectionGuard::new(1);
    let serve = || -> TowerServiceNoHttp<Identity, u8, u16, u64> {
        process_connection(params(&guard), &Ok::<(), String>(())).unwrap()
    };
    let mut first = serve();
    let mut second = serve();
    let held = first.call(&upgrade());
    assert!(matches!(held, CallAction::WebSocket { .. }));
    assert_eq!(second.inner.conn_guard.available_connections(), 0);
    assert!(matches!(second.call(&plain()), CallAction::TooManyRequests));
    assert!(matches!(first.call(&plain()), CallAction::TooManyRequests));
    drop(held);
    assert_eq!(guard.available_connections(), 1);
    assert!(matches!(second.call(&plain()), CallAction::Http { .. }));
}

#[test]
fn guard_without_permits_refuses() {
    let config = ServerConfig::builder().max_connections(0).build();
    let mut service = service(config);
    assert!(matches!(service.rpc_middleware.call(&plain()), CallAction::TooManyRequests));
    assert!(matches!(service.rpc_middleware.call(&upgrade()), CallAction::TooManyRequests));
}

#[test]
fn clone_of_a_service_shares_the_limit() {
    let config = ServerConfig::builder().max_connections(1).build();
    let mut service = service(config);
    service.on_session_closed(|| 5, &|_: &u64| ());
    let mut copy = service.clone();
    let held = copy.rpc_middleware.call(&plain());
    assert!(matches!(held, CallAction::Http { .. }));
    assert!(matches!(service.rpc_middleware.call(&plain()), CallAction::TooManyRequests));
    assert_eq!(copy.rpc_middleware.on_session_close, None);
}

#[test]
fn failed_handshake_gives_its_permit_back() {
    let config = ServerConfig::builder().max_connections(1).build();
    let mut service = service(config);
    let mut head = upgrade();
    head.key.clear();
    for _ in 0..3 {
        let action = service.rpc_middleware.call(&head);
        assert!(matches!(action, CallAction::HandshakeFailed { .. }));
        assert_eq!(service.rpc_middleware.inner.conn_guard.available_connections(), 1);
    }
}

#[test]
fn ids_wrap_around() {
    let ids = ConnectionIds::new(u32::MAX);
    assert_eq!(ids.nth(0), u32::MAX);
    assert_eq!(ids.nth(1), 0);
    assert_eq!(ConnectionIds::new(41).nth(2), 43);
}

#[test]
fn limit_of_built_services() {
    let builder = Builder::new().to_service_builder();
    assert_eq!(builder.conn_guard.max_connections(), 100);
    assert_eq!(builder.max_connections(5).conn_guard.max_connections(), 5);
}

#[test]
fn middleware_leaves_the_config_alone() {
    let config = ServerConfig::builder().max_connections(9).build();
    let builder = Builder::new()
        .set_config(config)
        .set_rpc_middleware(RpcServiceBuilder::new())
        .set_http_middleware(tower::ServiceBuilder::new());
    assert_eq!(builder.server_cfg.max_connections(), 9);
    let services = builder
        .to_service_builder()
        .set_rpc_middleware(RpcServiceBuilder::new())
        .set_http_middleware(tower::ServiceBuilder::new());
    assert_eq!(services.server_cfg.max_connections(), 9);
    assert_eq!(services.conn_guard.max_connections(), 9);
}

#[test]
fn server_with_and_without_listener() {
    let server = Server::<Identity, Identity, u8>::builder().build(Ok::<u8, String>(7)).unwrap();
    assert_eq!(server.listener, 7);
    let (runtime, server) = server.start();
    assert!(runtime.is_none());
    assert_eq!(server.listener, 7);
    let failed = Builder::new().build(Err::<u8, String>("in use".to_string()));
    assert_eq!(failed.err(), Some("in use".to_string()));
    let server = Builder::new().build_from_tcp(Ok::<u8, String>(8)).unwrap();
    assert_eq!(server.listener, 8);
    let failed = Builder::new().build_from_tcp(Err::<u8, String>("blocking".to_string()));
    assert_eq!(failed.err(), Some("blocking".to_string()));
}

#[test]
fn custom_runtime_is_handed_out() {
    let runtime = tokio::runtime::Builder::new_current_thread().build().unwrap();
    let config =
        ServerConfig::builder().custom_tokio_runtime(runtime.handle().clone()).build();
    let server = Builder::with_config(config).build(Ok::<u8, String>(7)).unwrap();
    let (handle, mut server) = server.start();
    assert!(handle.is_some());
    assert!(server.server_cfg.take_runtime().is_none());
}

#[test]
fn outcomes_of_accepting() {
    let event: AcceptEvent<u8, u16, String, u32> = AcceptEvent::Accepted(Ok((1, 2)), 3);
    assert!(matches!(
        try_accept_conn(event),
        AcceptConnection::Established { socket: 1, remote_addr: 2, stop: 3 }
    ));
    let event: AcceptEvent<u8, u16, String, u32> =
        AcceptEvent::Accepted(Err("reset".to_string()), 3);
    assert!(matches!(
        try_accept_conn(event),
        AcceptConnection::Failed((e, 3)) if e == "reset"
    ));
    let event: AcceptEvent<u8, u16, String, u32> = AcceptEvent::Stopped;
    assert!(matches!(try_accept_conn(event), AcceptConnection::Shutdown));
}

#[test]
fn life_of_the_server() {
    let (mut accepting, guard) = AcceptLoop::new(&ServerConfig::default());
    assert_eq!(guard.max_connections(), 100);
    for id in 0..3 {
        let outcome: AcceptConnection<u8, u16, String, u32> =
            AcceptConnection::Failed(("reset".to_string(), 4));
        assert!(matches!(
            accepting.on_accept(outcome),
            ServerAction::Retry { error, stop: 4 } if error == "reset"
        ));
        let outcome: AcceptConnection<u8, u16, String, u32> =
            AcceptConnection::Established { socket: 1, remote_addr: 2, stop: 3 };
        let ServerAction::Serve { conn_id, socket, remote_addr, stop } =
            accepting.on_accept(outcome)
        else {
            panic!("connection expected");
        };
        assert_eq!((conn_id, socket, remote_addr, stop), (id, 1, 2, 3));
        assert_eq!(accepting.phase(), ServerPhase::Accepting);
    }
    let outcome: AcceptConnection<u8, u16, String, u32> = AcceptConnection::Shutdown;
    assert!(matches!(accepting.on_accept(outcome), ServerAction::Drain));
    assert_eq!(accepting.phase(), ServerPhase::Draining);
    assert!(!accepting.on_completion(Some(())));
    assert_eq!(accepting.phase(), ServerPhase::Draining);
    assert!(accepting.on_completion(None));
    assert_eq!(accepting.phase(), ServerPhase::Stopped);
}

fn params(guard: &ConnectionGuard) -> ProcessConnection<'_, Identity, u8, u16> {
    ProcessConnection {
        rpc_middleware: RpcServiceBuilder::new(),
        conn_guard: guard,
        conn_id: 6,
        server_cfg: ServerConfig::default(),
        stop_handle: 2,
        methods: 1,
    }
}

#[test]
fn connection_is_given_up_where_the_socket_fails() {
    let guard = ConnectionGuard::new(3);
    let failed: Option<TowerServiceNoHttp<Identity, u8, u16, u64>> =
        process_connection(params(&guard), &Err("no delay".to_string()));
    assert!(failed.is_none());
    let served: Option<TowerServiceNoHttp<Identity, u8, u16, u64>> =
        process_connection(params(&guard), &Ok::<(), String>(()));
    let service = served.unwrap();
    assert_eq!(service.inner.conn_id, 6);
    assert_eq!(service.inner.methods, 1);
    assert_eq!(service.inner.stop_handle, 2);
    assert_eq!(service.inner.conn_guard.max_connections(), 3);
    assert!(service.on_session_close.is_none());
}

#[test]
fn life_of_a_connection() {
    let (phase, action) = connection_step(ConnectionPhase::Serving, ConnectionEvent::Ended);
    assert_eq!((phase, action), (ConnectionPhase::Finished, ConnectionAction::Complete));
    let (phase, action) = connection_step(ConnectionPhase::Serving, ConnectionEvent::StopRequested);
    assert_eq!(phase, ConnectionPhase::ShuttingDown);
    assert_eq!(action, ConnectionAction::GracefulShutdown);
    let (phase, action) = connection_step(phase, ConnectionEvent::StopRequested);
    assert_eq!((phase, action), (ConnectionPhase::ShuttingDown, ConnectionAction::Poll));
    let (phase, action) = connection_step(phase, ConnectionEvent::Ended);
    assert_eq!((phase, action), (ConnectionPhase::Finished, ConnectionAction::Complete));
    let (phase, action) = connection_step(phase, ConnectionEvent::StopRequested);
    assert_eq!((phase, action), (ConnectionPhase::Finished, ConnectionAction::Complete));
}

#[test]
fn session_without_encryption_and_provider() {
    let mut service = service(ServerConfig::default());
    let CallAction::WebSocket { message_encryption, id_provider, on_session_close, .. } =
        service.rpc_middleware.call(&upgrade())
    else {
        panic!("WebSocket expected");
    };
    assert!(message_encryption.is_none());
    assert!(id_provider.is_none());
    assert!(on_session_close.is_none());
}
