//! The services that requests go through.

use crate::admission::{Attempt, AttemptLog};
use crate::config::{share, BatchRequestConfig, ServerConfig, Settings};
use crate::connection_manager::ConnectionId;
use crate::handshake::{RequestHead, UpgradeResponse};
use crate::outside::try_acquire_owned;
use crate::traits::{IdProvider, MessageEncryption};
pub use crate::admission::TowerServiceNoHttp;
use std::sync::Arc;
use tokio::sync::{OwnedSemaphorePermit, Semaphore};
use vstd::prelude::*;
use vstd::string::*;

verus! {

/// Limits the number of connections. The owners of clones share the limit.
pub struct ConnectionGuard {
    inner: Arc<Semaphore>,
    max: usize,
}

impl View for ConnectionGuard {
    type V = nat;

    /// The number of connections that are allowed.
    closed spec fn view(&self) -> nat {
        self.max as nat
    }
}

impl Clone for ConnectionGuard {
    fn clone(&self) -> (r: Self)
        ensures
            r == *self,
    {
        ConnectionGuard { inner: Arc::clone(&self.inner), max: self.max }
    }
}

impl ConnectionGuard {
    /// The semaphore that the owners of clones share.
    pub closed spec fn semaphore(self) -> Arc<Semaphore> {
        self.inner
    }

    /// The guard gives out permits of a semaphore that was made with as many as the limit says.
    pub closed spec fn made_for(self, limit: usize) -> bool {
        call_ensures(Semaphore::new, (limit,), *self.inner)
    }

    /// The semaphore of the guard may answer an attempt to acquire a permit like this.
    pub closed spec fn answers(self, permit: Option<OwnedSemaphorePermit>) -> bool {
        exists|attempt: Attempt| #[trigger]
            call_ensures(try_acquire_owned, (&self.inner, attempt), permit)
    }

    /// The semaphore of the guard may count as many permits that are left.
    pub closed spec fn counts(self, available: usize) -> bool {
        call_ensures(Semaphore::available_permits, (&*self.inner,), available)
    }

    /// Create a new connection guard.
    pub fn new(limit: usize) -> (r: Self)
        requires
            limit <= usize::MAX / 8,
        ensures
            r@ == limit,
            r.made_for(limit),
    {
        ConnectionGuard { inner: Arc::new(Semaphore::new(limit)), max: limit }
    }

    /// Attempts once to acquire a permit; `None` where the limit is reached.
    pub fn try_acquire(&self, attempts: &mut AttemptLog) -> (r: Option<OwnedSemaphorePermit>)
        ensures
            self.answers(r),
            final(attempts)@ == old(attempts)@ + 1,
    {
        try_acquire_owned(&self.inner, attempts.attempt())
    }

    /// Get the number of available connection slots.
    pub fn available_connections(&self) -> (r: usize)
        ensures
            self.counts(r),
    {
        self.inner.available_permits()
    }

    /// Get the maximum number of permitted connections.
    pub fn max_connections(&self) -> (r: usize)
        ensures
            r == self@,
    {
        self.max
    }
}

/// A guard has the permits that its semaphore was made with, gives out those of its semaphore, and
/// counts those that are left of it.
pub(crate) proof fn guards_go_by_their_semaphore(
    guard: ConnectionGuard,
    limit: usize,
    permit: Option<OwnedSemaphorePermit>,
    available: usize,
)
    ensures
        guard.made_for(limit) ==> call_ensures(Semaphore::new, (limit,), *guard.semaphore()),
        guard.answers(permit) ==> exists|attempt: Attempt| #[trigger]
            call_ensures(try_acquire_owned, (&guard.semaphore(), attempt), permit),
        guard.counts(available) ==> call_ensures(
            Semaphore::available_permits,
            (&*guard.semaphore(),),
            available,
        ),
{
    if guard.answers(permit) {
        let attempt = choose|attempt: Attempt| #[trigger]
            call_ensures(try_acquire_owned, (&guard.inner, attempt), permit);
        assert(call_ensures(try_acquire_owned, (&guard.semaphore(), attempt), permit));
    }
}

/// Connection related state that is needed
/// to execute JSON-RPC calls.
#[derive(Debug, Clone)]
pub struct ConnectionState<H> {
    /// Stop handle.
    pub stop_handle: H,
    /// Connection ID
    pub conn_id: u32,
    /// Connection guard.
    pub conn_permit: Arc<OwnedSemaphorePermit>,
}

impl<H> ConnectionState<H> {
    /// Create a new connection state.
    pub fn new(stop_handle: H, conn_id: u32, conn_permit: OwnedSemaphorePermit) -> (r: Self)
        ensures
            r.stop_handle == stop_handle,
            r.conn_id == conn_id,
            *r.conn_permit == conn_permit,
    {
        ConnectionState { stop_handle, conn_id, conn_permit: Arc::new(conn_permit) }
    }
}

/// Data required by the server to handle requests: `M` are the registered methods and `H` is the
/// handle by which the server is told to stop.
pub struct ServiceData<M, H> {
    /// Registered server methods.
    pub methods: M,
    /// Stop handle.
    pub stop_handle: H,
    /// Connection ID
    pub conn_id: u32,
    /// Connection guard.
    pub conn_guard: ConnectionGuard,
    /// ServerConfig
    pub server_cfg: ServerConfig,
}

impl<M: Clone, H: Clone> ServiceData<M, H> {
    /// `other` is a clone, with the same guard.
    pub open spec fn cloned_as(self, other: Self) -> bool {
        &&& cloned(self.methods, other.methods)
        &&& cloned(self.stop_handle, other.stop_handle)
        &&& other.conn_id == self.conn_id
        &&& other.conn_guard == self.conn_guard
        &&& self.server_cfg@.cloned_as(other.server_cfg@)
    }
}

impl<M: Clone, H: Clone> Clone for ServiceData<M, H> {
    fn clone(&self) -> (r: Self)
        ensures
            self.cloned_as(r),
    {
        ServiceData {
            methods: self.methods.clone(),
            stop_handle: self.stop_handle.clone(),
            conn_id: self.conn_id,
            conn_guard: self.conn_guard.clone(),
            server_cfg: self.server_cfg.clone(),
        }
    }
}

/// The transport that serves a request.
#[derive(Debug, Clone, Copy, PartialEq, Eq, Structural)]
pub enum Route {
    /// The connection is upgraded to a WebSocket connection.
    WebSocket,
    /// The request is answered over HTTP.
    Http,
    /// The request is denied.
    Denied,
}

/// The transport that serves a request under the given settings.
pub open spec fn route_of(settings: Settings, asks_for_upgrade: bool) -> Route {
    if settings.enable_ws && asks_for_upgrade {
        Route::WebSocket
    } else if settings.enable_http && !asks_for_upgrade {
        Route::Http
    } else {
        Route::Denied
    }
}

/// What a WebSocket session is set up with.
#[derive(Debug, Clone, Copy, PartialEq, Eq, Structural)]
pub struct WsSession {
    /// Connection ID.
    pub conn_id: ConnectionId,
    /// Number of messages that are buffered; not zero.
    pub message_buffer_capacity: usize,
    /// Maximum number of subscriptions.
    pub max_subscriptions_per_connection: u32,
    /// Maximum size in bytes of a request.
    pub max_request_body_size: usize,
    /// Maximum size in bytes of a response.
    pub max_response_body_size: usize,
}

/// What the answer to an HTTP request is made with.
#[derive(Debug, Clone, Copy, PartialEq, Eq, Structural)]
pub struct HttpCall {
    /// Connection ID.
    pub conn_id: ConnectionId,
    /// How batch requests are handled.
    pub batch_requests_config: BatchRequestConfig,
    /// Maximum size in bytes of a request.
    pub max_request_body_size: u32,
    /// Maximum size in bytes of a response.
    pub max_response_body_size: usize,
}

/// The session that the settings give a connection.
pub open spec fn ws_session(settings: Settings, conn_id: u32) -> WsSession {
    WsSession {
        conn_id: ConnectionId(conn_id as usize),
        message_buffer_capacity: settings.message_buffer_capacity as usize,
        max_subscriptions_per_connection: settings.max_subscriptions_per_connection,
        max_request_body_size: settings.max_request_body_size as usize,
        max_response_body_size: settings.max_response_body_size as usize,
    }
}

/// The HTTP call that the settings give a connection.
pub open spec fn http_call(settings: Settings, conn_id: u32) -> HttpCall {
    HttpCall {
        conn_id: ConnectionId(conn_id as usize),
        batch_requests_config: settings.batch_requests_config,
        max_request_body_size: settings.max_request_body_size,
        max_response_body_size: settings.max_response_body_size as usize,
    }
}

/// What is to be done with a request. A connection state that is part of it is held until the
/// request has been served.
pub enum CallAction<H, C> {
    /// Answer that there are too many connections.
    TooManyRequests,
    /// Send the response and serve the connection that it opens.
    WebSocket {
        response: UpgradeResponse,
        conn: ConnectionState<H>,
        session: WsSession,
        /// Goes with the request, for the middleware to read.
        conn_guard: ConnectionGuard,
        /// Encrypts and decrypts the messages of the session.
        message_encryption: Option<Arc<dyn MessageEncryption>>,
        /// Where the ids of subscriptions come from; random integers where there is none.
        id_provider: Option<Arc<dyn IdProvider>>,
        on_session_close: Option<C>,
    },
    /// Answer with the text, since the handshake failed.
    HandshakeFailed { body: String },
    /// Answer over HTTP.
    Http {
        conn: ConnectionState<H>,
        call: HttpCall,
        /// Goes with the request, for the middleware to read.
        conn_guard: ConnectionGuard,
    },
    /// Deny the request.
    Denied,
}

/// The connection state of an admitted request.
pub open spec fn state_of<M, H: Clone>(
    data: ServiceData<M, H>,
    permit: OwnedSemaphorePermit,
    conn: ConnectionState<H>,
) -> bool {
    &&& cloned(data.stop_handle, conn.stop_handle)
    &&& conn.conn_id == data.conn_id
    &&& *conn.conn_permit == permit
}

/// `action` is what is done with a request that was given the permit, or none.
pub open spec fn served<M, H: Clone, C>(
    data: ServiceData<M, H>,
    permit: Option<OwnedSemaphorePermit>,
    on_session_close: Option<C>,
    head: RequestHead,
    action: CallAction<H, C>,
) -> bool {
    match permit {
        None => action is TooManyRequests,
        Some(permit) => match route_of(data.server_cfg@, head@.asks_for_upgrade()) {
            Route::WebSocket => match head@.fault() {
                None => {
                    &&& action matches CallAction::WebSocket {
                        response,
                        conn,
                        session,
                        conn_guard,
                        message_encryption,
                        id_provider,
                        on_session_close: closing,
                    }
                    &&& response.completes(head@.key[0])
                    &&& state_of(data, permit, conn)
                    &&& session == ws_session(data.server_cfg@, data.conn_id)
                    &&& conn_guard == data.conn_guard
                    &&& message_encryption == data.server_cfg@.message_encryption
                    &&& id_provider == data.server_cfg@.id_provider
                    &&& closing == on_session_close
                },
                Some(fault) => action matches CallAction::HandshakeFailed { body } && exists|
                    text: Seq<char>,
                |
                    #[trigger] fault.described_by(text) && body@
                        == "Could not upgrade connection: "@ + text,
            },
            Route::Http => {
                &&& action matches CallAction::Http { conn, call, conn_guard }
                &&& conn_guard == data.conn_guard
                &&& state_of(data, permit, conn)
                &&& call == http_call(data.server_cfg@, data.conn_id)
            },
            Route::Denied => action is Denied,
        },
    }
}

/// The transport that serves a request.
pub fn route(config: &ServerConfig, asks_for_upgrade: bool) -> (r: Route)
    ensures
        r == route_of(config@, asks_for_upgrade),
{
    if config.enable_ws() && asks_for_upgrade {
        Route::WebSocket
    } else if config.enable_http() && !asks_for_upgrade {
        Route::Http
    } else {
        Route::Denied
    }
}

impl<M, H: Clone> ServiceData<M, H> {
    /// Decides on a request that was given a permit, or none because the limit of connections is
    /// reached.
    pub fn serve<C>(
        &self,
        permit: Option<OwnedSemaphorePermit>,
        on_session_close: Option<C>,
        head: &RequestHead,
    ) -> (r: CallAction<H, C>)
        requires
            head.valid(),
        ensures
            served(*self, permit, on_session_close, *head, r),
            r matches CallAction::WebSocket { session, .. } ==> session.message_buffer_capacity > 0,
    {
        let Some(conn_permit) = permit else {
            return CallAction::TooManyRequests;
        };
        let conn = ConnectionState::new(self.stop_handle.clone(), self.conn_id, conn_permit);
        match route(&self.server_cfg, head.is_upgrade_request()) {
            Route::WebSocket => match head.receive_request() {
                Ok(response) => CallAction::WebSocket {
                    response,
                    conn,
                    session: WsSession {
                        conn_id: ConnectionId::from(self.conn_id),
                        message_buffer_capacity: self.server_cfg.message_buffer_capacity() as usize,
                        max_subscriptions_per_connection:
                            self.server_cfg.max_subscriptions_per_connection(),
                        max_request_body_size: self.server_cfg.max_request_body_size() as usize,
                        max_response_body_size: self.server_cfg.max_response_body_size() as usize,
                    },
                    conn_guard: self.conn_guard.clone(),
                    message_encryption: share(self.server_cfg.message_encryption()),
                    id_provider: share(self.server_cfg.id_provider()),
                    on_session_close,
                },
                Err(text) => {
                    let mut body = "Could not upgrade connection: ".to_string();
                    body.append(text.as_str());
                    CallAction::HandshakeFailed { body }
                },
            },
            Route::Http => CallAction::Http {
                conn,
                call: HttpCall {
                    conn_id: ConnectionId::from(self.conn_id),
                    batch_requests_config: self.server_cfg.batch_requests_config(),
                    max_request_body_size: self.server_cfg.max_request_body_size(),
                    max_response_body_size: self.server_cfg.max_response_body_size() as usize,
                },
                conn_guard: self.conn_guard.clone(),
            },
            Route::Denied => CallAction::Denied,
        }
    }
}

/// The stack is one without layers.
pub open spec fn no_layers(stack: tower::ServiceBuilder<tower::layer::util::Identity>) -> bool {
    call_ensures(tower::ServiceBuilder::<tower::layer::util::Identity>::new, (), stack)
}

/// Stack of layers around the RPC service.
#[verifier::reject_recursive_types(L)]
pub struct RpcServiceBuilder<L>(pub tower::ServiceBuilder<L>);

impl RpcServiceBuilder<tower::layer::util::Identity> {
    /// Create a stack without layers.
    pub fn new() -> (r: Self)
        ensures
            no_layers(r.0),
    {
        RpcServiceBuilder(tower::ServiceBuilder::new())
    }
}

impl<L: Clone> Clone for RpcServiceBuilder<L> {
    fn clone(&self) -> (r: Self)
        ensures
            cloned(self.0, r.0),
    {
        RpcServiceBuilder(duplicate(&self.0))
    }
}

/// Clones a value.
pub(crate) fn duplicate<T: Clone>(value: &T) -> (r: T)
    ensures
        cloned(*value, r),
{
    value.clone()
}

impl<L, M, H: Clone, C> TowerServiceNoHttp<L, M, H, C> {
    /// `action` is what is done with a request, on an answer of the guard of this service.
    pub open spec fn decides(self, head: RequestHead, action: CallAction<H, C>) -> bool {
        exists|permit: Option<OwnedSemaphorePermit>|
            self.inner.conn_guard.answers(permit) && #[trigger] served(
                self.inner,
                permit,
                self.on_session_close,
                head,
                action,
            )
    }

    /// Decides on a request. The listeners of the session go with it, whatever is decided.
    pub fn call(&mut self, head: &RequestHead) -> (r: CallAction<H, C>)
        requires
            head.valid(),
        ensures
            final(self).inner == old(self).inner,
            final(self).rpc_middleware == old(self).rpc_middleware,
            final(self).on_session_close is None,
            final(self).attempts@ == old(self).attempts@ + 1,
            old(self).decides(*head, r),
            r matches CallAction::WebSocket { session, .. } ==> session.message_buffer_capacity > 0,
    {
        let on_session_close = self.on_session_close.take();
        let permit = self.inner.conn_guard.try_acquire(&mut self.attempts);
        self.inner.serve(permit, on_session_close, head)
    }
}

/// Service with both the HTTP and the RPC middleware.
#[verifier::reject_recursive_types(RpcMiddleware)]
#[verifier::reject_recursive_types(HttpMiddleware)]
pub struct TowerService<RpcMiddleware, HttpMiddleware, M, H, C> {
    /// The service without HTTP specific middleware.
    pub rpc_middleware: TowerServiceNoHttp<RpcMiddleware, M, H, C>,
    /// HTTP middleware.
    pub http_middleware: tower::ServiceBuilder<HttpMiddleware>,
}

impl<RpcMiddleware: Clone, HttpMiddleware: Clone, M: Clone, H: Clone, C: Clone> Clone
    for TowerService<RpcMiddleware, HttpMiddleware, M, H, C> {
    fn clone(&self) -> (r: Self)
        ensures
            self.rpc_middleware.cloned_as(r.rpc_middleware),
            cloned(self.http_middleware, r.http_middleware),
    {
        TowerService {
            rpc_middleware: self.rpc_middleware.clone(),
            http_middleware: duplicate(&self.http_middleware),
        }
    }
}

/// `after` is who is told that a session has been closed once it was made sure that someone is:
/// who was told before, or else who `create` makes.
pub open spec fn listens<C, F: FnOnce() -> C>(
    before: Option<C>,
    create: F,
    after: Option<C>,
) -> bool {
    match before {
        Some(_) => after == before,
        None => after matches Some(session_close) && create.ensures((), session_close),
    }
}

/// `listener` listens to whoever is told that the session has been closed.
pub open spec fn hears<C, W, G: Fn(&C) -> W>(
    session_close: Option<C>,
    listen: G,
    listener: W,
) -> bool {
    session_close matches Some(session_close) && listen.ensures((&session_close,), listener)
}

impl<RpcMiddleware, HttpMiddleware, M, H, C> TowerService<RpcMiddleware, HttpMiddleware, M, H, C> {
    /// Makes sure that someone is told when the connection has been closed, and listens to it: if
    /// there is none yet, `create` makes one. Each call gets a listener of its own.
    ///
    /// This method must be called before every request because the listeners go with the request.
    pub fn on_session_closed<W, F: FnOnce() -> C, G: Fn(&C) -> W>(
        &mut self,
        create: F,
        listen: &G,
    ) -> (r: W)
        requires
            create.requires(()),
            forall|session_close: &C| #[trigger] listen.requires((session_close,)),
        ensures
            final(self).http_middleware == old(self).http_middleware,
            final(self).rpc_middleware.inner == old(self).rpc_middleware.inner,
            final(self).rpc_middleware.rpc_middleware == old(self).rpc_middleware.rpc_middleware,
            final(self).rpc_middleware.attempts == old(self).rpc_middleware.attempts,
            listens(
                old(self).rpc_middleware.on_session_close,
                create,
                final(self).rpc_middleware.on_session_close,
            ),
            hears(final(self).rpc_middleware.on_session_close, *listen, r),
    {
        let session_close = match self.rpc_middleware.on_session_close.take() {
            Some(session_close) => session_close,
            None => create(),
        };
        let listener = listen(&session_close);
        self.rpc_middleware.on_session_close = Some(session_close);
        listener
    }
}

} // verus!
