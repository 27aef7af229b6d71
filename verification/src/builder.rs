//! Builders of the server and of its services.

use crate::accept::id_of;
use crate::config::{default_settings, ServerConfig, Settings};
use crate::service::{
    duplicate, no_layers, ConnectionGuard, RpcServiceBuilder, ServiceData, TowerService, TowerServiceNoHttp,
};
use crate::summary;
use crate::traits::{MessageCryptoErrorPolicy, MessageEncryption};
use std::sync::atomic::AtomicU32;
use std::sync::Arc;
use tower::layer::util::Identity;
use vstd::prelude::*;

verus! {

/// JSON RPC server. `L` is the listener that connections are accepted from.
#[verifier::reject_recursive_types(HttpMiddleware)]
#[verifier::reject_recursive_types(RpcMiddleware)]
pub struct Server<HttpMiddleware, RpcMiddleware, L> {
    /// Where connections are accepted.
    pub listener: L,
    /// Configuration.
    pub server_cfg: ServerConfig,
    /// RPC middleware.
    pub rpc_middleware: RpcServiceBuilder<RpcMiddleware>,
    /// HTTP middleware.
    pub http_middleware: tower::ServiceBuilder<HttpMiddleware>,
}

impl<L> Server<Identity, Identity, L> {
    /// Create a builder for the server.
    pub fn builder() -> (r: Builder<Identity, Identity>)
        ensures
            r.server_cfg@ == default_settings(),
            no_layers(r.rpc_middleware.0),
            no_layers(r.http_middleware),
    {
        Builder::new()
    }
}

impl<HttpMiddleware, RpcMiddleware, L> Server<HttpMiddleware, RpcMiddleware, L> {
    /// What is shown of the server when it is printed.
    pub fn summary(&self) -> (r: summary::Server<'_, L>)
        ensures
            *r.listener == self.listener,
            r.server_cfg.shows(self.server_cfg@),
    {
        summary::Server { listener: &self.listener, server_cfg: self.server_cfg.summary() }
    }

    /// Start responding to connections requests: hands out the custom runtime that the server is
    /// to run on, where there is one, and the server that runs there.
    pub fn start(self) -> (r: (Option<tokio::runtime::Handle>, Self))
        ensures
            r.0 == self.server_cfg@.tokio_runtime,
            r.1.server_cfg@ == (Settings { tokio_runtime: None, ..self.server_cfg@ }),
            r.1.listener == self.listener,
            r.1.rpc_middleware == self.rpc_middleware,
            r.1.http_middleware == self.http_middleware,
    {
        let mut server_cfg = self.server_cfg;
        let runtime = server_cfg.take_runtime();
        let server = Server {
            listener: self.listener,
            server_cfg,
            rpc_middleware: self.rpc_middleware,
            http_middleware: self.http_middleware,
        };
        (runtime, server)
    }
}

/// Builder to configure and create a JSON-RPC server.
#[verifier::reject_recursive_types(HttpMiddleware)]
#[verifier::reject_recursive_types(RpcMiddleware)]
pub struct Builder<HttpMiddleware, RpcMiddleware> {
    /// Configuration.
    pub server_cfg: ServerConfig,
    /// RPC middleware.
    pub rpc_middleware: RpcServiceBuilder<RpcMiddleware>,
    /// HTTP middleware.
    pub http_middleware: tower::ServiceBuilder<HttpMiddleware>,
}

impl Default for Builder<Identity, Identity> {
    fn default() -> (r: Self)
        ensures
            r.server_cfg@ == default_settings(),
            no_layers(r.rpc_middleware.0),
            no_layers(r.http_middleware),
    {
        Builder {
            server_cfg: ServerConfig::default(),
            rpc_middleware: RpcServiceBuilder::new(),
            http_middleware: tower::ServiceBuilder::new(),
        }
    }
}

impl Builder<Identity, Identity> {
    /// Create a default server builder.
    pub fn new() -> (r: Self)
        ensures
            r.server_cfg@ == default_settings(),
            no_layers(r.rpc_middleware.0),
            no_layers(r.http_middleware),
    {
        Self::default()
    }

    /// Create a server builder with the given [`ServerConfig`].
    pub fn with_config(config: ServerConfig) -> (r: Self)
        ensures
            r.server_cfg == config,
            no_layers(r.rpc_middleware.0),
            no_layers(r.http_middleware),
    {
        Builder { server_cfg: config, ..Self::default() }
    }
}

impl<HttpMiddleware, RpcMiddleware> Builder<HttpMiddleware, RpcMiddleware> {
    /// Configure the [`ServerConfig`].
    pub fn set_config(self, cfg: ServerConfig) -> (r: Self)
        ensures
            r == (Builder { server_cfg: cfg, ..self }),
    {
        Builder { server_cfg: cfg, ..self }
    }

    /// Enable middleware that is invoked on every JSON-RPC call.
    pub fn set_rpc_middleware<T>(self, rpc_middleware: RpcServiceBuilder<T>) -> (r: Builder<
        HttpMiddleware,
        T,
    >)
        ensures
            r.server_cfg == self.server_cfg,
            r.rpc_middleware == rpc_middleware,
            r.http_middleware == self.http_middleware,
    {
        Builder {
            server_cfg: self.server_cfg,
            rpc_middleware,
            http_middleware: self.http_middleware,
        }
    }

    /// Set custom message encryption implementation.
    ///
    /// This enables encryption/decryption of JSON-RPC messages sent over WebSocket.
    /// The encryption is applied to the entire JSON-RPC message string.
    pub fn set_message_encryption(self, encryption: Arc<dyn MessageEncryption>) -> (r: Self)
        ensures
            ({
                let message_encryption = Some(encryption);
                r.server_cfg@ == Settings { message_encryption, ..self.server_cfg@ }
            }),
            r.rpc_middleware == self.rpc_middleware,
            r.http_middleware == self.http_middleware,
    {
        let message_encryption = Some(encryption);
        Builder { server_cfg: self.server_cfg.with_message_encryption(message_encryption), ..self }
    }

    /// Set message encryption/decryption error handling policy.
    ///
    /// This policy controls how the server responds to encryption/decryption failures.
    pub fn set_message_crypto_error_policy(self, policy: MessageCryptoErrorPolicy) -> (r: Self)
        ensures
            r.server_cfg@ == (Settings {
                message_crypto_error_policy: policy,
                ..self.server_cfg@
            }),
            r.rpc_middleware == self.rpc_middleware,
            r.http_middleware == self.http_middleware,
    {
        Builder { server_cfg: self.server_cfg.with_message_crypto_error_policy(policy), ..self }
    }

    /// Configure a custom [`tower::ServiceBuilder`] middleware for composing layers to be applied to the RPC service.
    ///
    /// Default: No tower layers are applied to the RPC service.
    pub fn set_http_middleware<T>(self, http_middleware: tower::ServiceBuilder<T>) -> (r: Builder<
        T,
        RpcMiddleware,
    >)
        ensures
            r.server_cfg == self.server_cfg,
            r.rpc_middleware == self.rpc_middleware,
            r.http_middleware == http_middleware,
    {
        Builder {
            server_cfg: self.server_cfg,
            http_middleware,
            rpc_middleware: self.rpc_middleware,
        }
    }

    /// Convert the server builder to a [`TowerServiceBuilder`].
    pub fn to_service_builder(self) -> (r: TowerServiceBuilder<RpcMiddleware, HttpMiddleware>)
        requires
            self.server_cfg@.max_connections <= usize::MAX / 8,
        ensures
            r.server_cfg == self.server_cfg,
            r.rpc_middleware == self.rpc_middleware,
            r.http_middleware == self.http_middleware,
            r.conn_id@ == 0,
            r.conn_id.unused(),
            r.conn_guard@ == self.server_cfg@.max_connections,
            r.conn_guard.made_for(self.server_cfg@.max_connections as usize),
    {
        let max_conns: usize = self.server_cfg.max_connections() as usize;

        TowerServiceBuilder {
            server_cfg: self.server_cfg,
            rpc_middleware: self.rpc_middleware,
            http_middleware: self.http_middleware,
            conn_id: ConnectionIds::new(0),
            conn_guard: ConnectionGuard::new(max_conns),
        }
    }

    /// Finalize the configuration of the server, given the listener or the reason why there is
    /// none. Consumes the [`Builder`].
    pub fn build<L, E>(self, listener: Result<L, E>) -> (r: Result<
        Server<HttpMiddleware, RpcMiddleware, L>,
        E,
    >)
        ensures
            match listener {
                Ok(listener) => r == Ok::<_, E>(
                    Server {
                        listener,
                        server_cfg: self.server_cfg,
                        rpc_middleware: self.rpc_middleware,
                        http_middleware: self.http_middleware,
                    },
                ),
                Err(err) => r == Err::<Server<HttpMiddleware, RpcMiddleware, L>, _>(err),
            },
    {
        match listener {
            Ok(listener) => Ok(
                Server {
                    listener,
                    server_cfg: self.server_cfg,
                    rpc_middleware: self.rpc_middleware,
                    http_middleware: self.http_middleware,
                },
            ),
            Err(err) => Err(err),
        }
    }

    /// Finalizes the configuration of the server with a listener that was made from a socket, or
    /// the reason why none could be made. Consumes the [`Builder`].
    pub fn build_from_tcp<L, E>(self, listener: Result<L, E>) -> (r: Result<
        Server<HttpMiddleware, RpcMiddleware, L>,
        E,
    >)
        ensures
            match listener {
                Ok(listener) => r == Ok::<_, E>(
                    Server {
                        listener,
                        server_cfg: self.server_cfg,
                        rpc_middleware: self.rpc_middleware,
                        http_middleware: self.http_middleware,
                    },
                ),
                Err(err) => r == Err::<Server<HttpMiddleware, RpcMiddleware, L>, _>(err),
            },
    {
        self.build(listener)
    }
}

/// Gives out connection ids: a first one, and those that follow it. The owners of clones share
/// them.
pub struct ConnectionIds {
    first: u32,
    given: Arc<AtomicU32>,
}

impl View for ConnectionIds {
    type V = u32;

    /// The first id.
    closed spec fn view(&self) -> u32 {
        self.first
    }
}

/// The id that follows `first` after `given` others.
pub open spec fn nth_id(first: u32, given: u32) -> u32 {
    id_of((first + given) as nat) as u32
}

impl Clone for ConnectionIds {
    fn clone(&self) -> (r: Self)
        ensures
            r == *self,
    {
        ConnectionIds { first: self.first, given: Arc::clone(&self.given) }
    }
}

impl ConnectionIds {
    /// The counter that the owners of clones share.
    pub closed spec fn counter(self) -> Arc<AtomicU32> {
        self.given
    }

    /// The owners share a counter that was made to start at zero.
    pub closed spec fn unused(self) -> bool {
        call_ensures(AtomicU32::new, (0u32,), *self.given)
    }

    /// The counter may say, when it is increased by one, that `given` ids were given out before.
    pub closed spec fn gives(self, given: u32) -> bool {
        call_ensures(
            AtomicU32::fetch_add,
            (&*self.given, 1u32, std::sync::atomic::Ordering::Relaxed),
            given,
        )
    }

    /// Start with the given id.
    pub fn new(first: u32) -> (r: Self)
        ensures
            r@ == first,
            r.unused(),
    {
        ConnectionIds { first, given: Arc::new(AtomicU32::new(0)) }
    }

    /// The id that follows after `given` others.
    pub fn nth(&self, given: u32) -> (r: u32)
        ensures
            r == nth_id(self@, given),
    {
        self.first.wrapping_add(given)
    }
}

/// Ids that were not used yet have a counter that was made to start at zero; giving one out increases
/// the counter by one.
pub proof fn ids_go_by_their_counter(ids: ConnectionIds, given: u32)
    ensures
        ids.unused() ==> call_ensures(AtomicU32::new, (0u32,), *ids.counter()),
        ids.gives(given) ==> call_ensures(
            AtomicU32::fetch_add,
            (&*ids.counter(), 1u32, std::sync::atomic::Ordering::Relaxed),
            given,
        ),
{
}

/// Builder for [`TowerService`].
#[verifier::reject_recursive_types(HttpMiddleware)]
#[verifier::reject_recursive_types(RpcMiddleware)]
pub struct TowerServiceBuilder<RpcMiddleware, HttpMiddleware> {
    /// ServerConfig
    pub server_cfg: ServerConfig,
    /// RPC middleware.
    pub rpc_middleware: RpcServiceBuilder<RpcMiddleware>,
    /// HTTP middleware.
    pub http_middleware: tower::ServiceBuilder<HttpMiddleware>,
    /// Connection IDs.
    pub conn_id: ConnectionIds,
    /// Connection guard.
    pub conn_guard: ConnectionGuard,
}

impl<RpcMiddleware: Clone, HttpMiddleware: Clone> Clone for TowerServiceBuilder<
    RpcMiddleware,
    HttpMiddleware,
> {
    fn clone(&self) -> (r: Self)
        ensures
            r.conn_id == self.conn_id,
            r.conn_guard == self.conn_guard,
            self.server_cfg@.cloned_as(r.server_cfg@),
            cloned(self.rpc_middleware.0, r.rpc_middleware.0),
            cloned(self.http_middleware, r.http_middleware),
    {
        TowerServiceBuilder {
            server_cfg: self.server_cfg.clone(),
            rpc_middleware: self.rpc_middleware.clone(),
            http_middleware: duplicate(&self.http_middleware),
            conn_id: self.conn_id.clone(),
            conn_guard: self.conn_guard.clone(),
        }
    }
}

impl<RpcMiddleware, HttpMiddleware> TowerServiceBuilder<RpcMiddleware, HttpMiddleware> {
    /// `service` is the service that is built with the connection id.
    pub open spec fn builds<M, H, C>(
        self,
        methods: M,
        stop_handle: H,
        conn_id: u32,
        service: TowerService<RpcMiddleware, HttpMiddleware, M, H, C>,
    ) -> bool {
        &&& service == TowerService::<RpcMiddleware, HttpMiddleware, M, H, C> {
            rpc_middleware: TowerServiceNoHttp {
                rpc_middleware: self.rpc_middleware,
                inner: ServiceData {
                    methods,
                    stop_handle,
                    conn_id,
                    conn_guard: self.conn_guard,
                    server_cfg: self.server_cfg,
                },
                on_session_close: None,
                attempts: service.rpc_middleware.attempts,
            },
            http_middleware: self.http_middleware,
        }
        &&& service.rpc_middleware.attempts@ == 0
    }

    /// Build a tower service with the given connection id.
    pub fn build_with_id<M, H, C>(self, methods: M, stop_handle: H, conn_id: u32) -> (r:
        TowerService<RpcMiddleware, HttpMiddleware, M, H, C>)
        ensures
            self.builds(methods, stop_handle, conn_id, r),
    {
        let inner = ServiceData {
            methods,
            stop_handle,
            conn_id,
            conn_guard: self.conn_guard,
            server_cfg: self.server_cfg,
        };
        let rpc_middleware = TowerServiceNoHttp::new(inner, self.rpc_middleware);

        TowerService { rpc_middleware, http_middleware: self.http_middleware }
    }

    /// Build a tower service. Its connection id is the next one of those that this builder and the
    /// other owners of its ids give out: it follows the first id by the number of services that
    /// they have built before.
    pub fn build<M, H, C>(self, methods: M, stop_handle: H) -> (r: TowerService<
        RpcMiddleware,
        HttpMiddleware,
        M,
        H,
        C,
    >)
        ensures
            exists|given: u32|
                self.conn_id.gives(given) && #[trigger] self.builds(
                    methods,
                    stop_handle,
                    nth_id(self.conn_id@, given),
                    r,
                ),
    {
        let given: u32 = self.conn_id.given.fetch_add(1, std::sync::atomic::Ordering::Relaxed);
        let conn_id: u32 = self.conn_id.nth(given);
        self.build_with_id(methods, stop_handle, conn_id)
    }

    /// Configure the connection id.
    ///
    /// This is incremented every time `build` is called.
    pub fn connection_id(self, id: u32) -> (r: Self)
        ensures
            r == (TowerServiceBuilder { conn_id: r.conn_id, ..self }),
            r.conn_id@ == id,
            r.conn_id.unused(),
    {
        TowerServiceBuilder { conn_id: ConnectionIds::new(id), ..self }
    }

    /// Configure the max allowed connections on the server.
    pub fn max_connections(self, limit: u32) -> (r: Self)
        requires
            limit <= usize::MAX / 8,
        ensures
            r == (TowerServiceBuilder { conn_guard: r.conn_guard, ..self }),
            r.conn_guard@ == limit,
            r.conn_guard.made_for(limit as usize),
    {
        TowerServiceBuilder { conn_guard: ConnectionGuard::new(limit as usize), ..self }
    }

    /// Configure rpc middleware.
    pub fn set_rpc_middleware<T>(self, rpc_middleware: RpcServiceBuilder<T>) -> (r:
        TowerServiceBuilder<T, HttpMiddleware>)
        ensures
            r == (TowerServiceBuilder {
                server_cfg: self.server_cfg,
                rpc_middleware,
                http_middleware: self.http_middleware,
                conn_id: self.conn_id,
                conn_guard: self.conn_guard,
            }),
    {
        TowerServiceBuilder {
            server_cfg: self.server_cfg,
            rpc_middleware,
            http_middleware: self.http_middleware,
            conn_id: self.conn_id,
            conn_guard: self.conn_guard,
        }
    }

    /// Configure http middleware.
    pub fn set_http_middleware<T>(self, http_middleware: tower::ServiceBuilder<T>) -> (r:
        TowerServiceBuilder<RpcMiddleware, T>)
        ensures
            r == (TowerServiceBuilder {
                server_cfg: self.server_cfg,
                rpc_middleware: self.rpc_middleware,
                http_middleware,
                conn_id: self.conn_id,
                conn_guard: self.conn_guard,
            }),
    {
        TowerServiceBuilder {
            server_cfg: self.server_cfg,
            rpc_middleware: self.rpc_middleware,
            http_middleware,
            conn_id: self.conn_id,
            conn_guard: self.conn_guard,
        }
    }
}

} // verus!
