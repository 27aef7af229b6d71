//! The life of the server and of its connections: which connections are accepted under which id,
//! and when the server and each connection come to an end.

use crate::config::ServerConfig;
use crate::service::{ConnectionGuard, RpcServiceBuilder, ServiceData, TowerServiceNoHttp};
use vstd::prelude::*;

verus! {

/// What came first: a connection, with the future `S` that waits for the server to be stopped, or
/// the stop.
pub enum AcceptEvent<T, A, E, S> {
    /// The listener accepted a connection, or failed to.
    Accepted(Result<(T, A), E>, S),
    /// The server was stopped.
    Stopped,
}

/// Outcome of waiting for a connection.
pub enum AcceptConnection<T, A, E, S> {
    /// The server was stopped.
    Shutdown,
    /// There is a new connection.
    Established { socket: T, remote_addr: A, stop: S },
    /// The listener failed to accept a connection.
    Failed((E, S)),
}

/// The outcome that an event stands for.
pub open spec fn accept_outcome<T, A, E, S>(event: AcceptEvent<T, A, E, S>) -> AcceptConnection<
    T,
    A,
    E,
    S,
> {
    match event {
        AcceptEvent::Accepted(Ok((socket, remote_addr)), stop) => AcceptConnection::Established {
            socket,
            remote_addr,
            stop,
        },
        AcceptEvent::Accepted(Err(e), stop) => AcceptConnection::Failed((e, stop)),
        AcceptEvent::Stopped => AcceptConnection::Shutdown,
    }
}

/// Tells the outcomes of waiting for a connection apart.
pub fn try_accept_conn<T, A, E, S>(event: AcceptEvent<T, A, E, S>) -> (r: AcceptConnection<
    T,
    A,
    E,
    S,
>)
    ensures
        r == accept_outcome(event),
{
    match event {
        AcceptEvent::Accepted(res, stop) => match res {
            Ok((socket, remote_addr)) => AcceptConnection::Established {
                socket,
                remote_addr,
                stop,
            },
            Err(e) => AcceptConnection::Failed((e, stop)),
        },
        AcceptEvent::Stopped => AcceptConnection::Shutdown,
    }
}

/// What the server does.
#[derive(Debug, Clone, Copy, PartialEq, Eq, Structural)]
pub enum ServerPhase {
    /// Connections are accepted.
    Accepting,
    /// No more connections are accepted; those that are left are waited for.
    Draining,
    /// All connections have been shut down.
    Stopped,
}

/// What is to be done next.
pub enum ServerAction<T, A, E, S> {
    /// Serve the connection under the id, and wait for the next one.
    Serve { conn_id: u32, socket: T, remote_addr: A, stop: S },
    /// Wait for the next connection, after a failure.
    Retry { error: E, stop: S },
    /// Wait until the connections that are left have been shut down.
    Drain,
}

/// The loop of the server.
pub struct AcceptLoop {
    next_id: u32,
    phase: ServerPhase,
    established: Ghost<nat>,
}

/// What an [`AcceptLoop`] holds: its phase and how many connections were established so far.
pub struct AcceptLoopView {
    pub phase: ServerPhase,
    pub established: nat,
}

impl View for AcceptLoop {
    type V = AcceptLoopView;

    closed spec fn view(&self) -> AcceptLoopView {
        AcceptLoopView { phase: self.phase, established: self.established@ }
    }
}

/// The id of the connection that was established after `n` others.
pub open spec fn id_of(n: nat) -> nat {
    n % 0x1_0000_0000
}

impl AcceptLoopView {
    /// A server that waits for its first connection.
    pub open spec fn initial() -> AcceptLoopView {
        AcceptLoopView { phase: ServerPhase::Accepting, established: 0 }
    }

    /// The server after the outcome of waiting for a connection.
    pub open spec fn after<T, A, E, S>(
        self,
        outcome: AcceptConnection<T, A, E, S>,
    ) -> AcceptLoopView {
        match outcome {
            AcceptConnection::Established { .. } => AcceptLoopView {
                established: self.established + 1,
                ..self
            },
            AcceptConnection::Failed(_) => self,
            AcceptConnection::Shutdown => AcceptLoopView { phase: ServerPhase::Draining, ..self },
        }
    }
}

impl AcceptLoop {
    /// The next id counts the connections that were established.
    pub closed spec fn wf(self) -> bool {
        self.next_id == id_of(self@.established)
    }

    /// A server that accepts its first connection, and the guard that its connections share.
    pub fn new(server_cfg: &ServerConfig) -> (r: (Self, ConnectionGuard))
        requires
            server_cfg@.max_connections <= usize::MAX / 8,
        ensures
            r.0.wf(),
            r.0@ == AcceptLoopView::initial(),
            r.1@ == server_cfg@.max_connections,
            r.1.made_for(server_cfg@.max_connections as usize),
    {
        let connection_guard = ConnectionGuard::new(server_cfg.max_connections() as usize);
        (
            AcceptLoop { next_id: 0, phase: ServerPhase::Accepting, established: Ghost(0) },
            connection_guard,
        )
    }

    /// The phase of the server.
    pub fn phase(&self) -> (r: ServerPhase)
        ensures
            r == self@.phase,
    {
        self.phase
    }

    /// Decides on the outcome of waiting for a connection.
    pub fn on_accept<T, A, E, S>(&mut self, outcome: AcceptConnection<T, A, E, S>) -> (r:
        ServerAction<T, A, E, S>)
        requires
            old(self).wf(),
            old(self)@.phase == ServerPhase::Accepting,
        ensures
            final(self).wf(),
            final(self)@ == old(self)@.after(outcome),
            r == match outcome {
                AcceptConnection::Established { socket, remote_addr, stop } => ServerAction::Serve {
                    conn_id: id_of(old(self)@.established) as u32,
                    socket,
                    remote_addr,
                    stop,
                },
                AcceptConnection::Failed((error, stop)) => ServerAction::Retry { error, stop },
                AcceptConnection::Shutdown => ServerAction::Drain,
            },
    {
        match outcome {
            AcceptConnection::Established { socket, remote_addr, stop } => {
                let conn_id: u32 = self.next_id;
                self.next_id = conn_id.wrapping_add(1);
                proof {
                    self.established@ = self.established@ + 1;
                }
                ServerAction::Serve { conn_id, socket, remote_addr, stop }
            },
            AcceptConnection::Failed((e, stop)) => ServerAction::Retry { error: e, stop },
            AcceptConnection::Shutdown => {
                self.phase = ServerPhase::Draining;
                ServerAction::Drain
            },
        }
    }

    /// Decides on what came out of the channel that all connections own: a message, which is not
    /// expected, or nothing, once the last of them has been shut down. Tells whether the server has
    /// stopped.
    pub fn on_completion(&mut self, message: Option<()>) -> (r: bool)
        requires
            old(self).wf(),
            old(self)@.phase == ServerPhase::Draining,
        ensures
            final(self).wf(),
            r == (message is None),
            final(self)@ == (AcceptLoopView {
                phase: if message is None {
                    ServerPhase::Stopped
                } else {
                    ServerPhase::Draining
                },
                ..old(self)@
            }),
    {
        if message.is_some() {
            // Generally, messages should not be sent across this channel,
            // but we'll wait for `None` just to be on the safe side
            false
        } else {
            self.phase = ServerPhase::Stopped;
            true
        }
    }
}

/// What a new connection is served with.
#[verifier::reject_recursive_types(L)]
pub struct ProcessConnection<'a, L, M, H> {
    /// RPC middleware.
    pub rpc_middleware: RpcServiceBuilder<L>,
    /// Connection guard.
    pub conn_guard: &'a ConnectionGuard,
    /// Connection ID.
    pub conn_id: u32,
    /// Configuration.
    pub server_cfg: ServerConfig,
    /// Stop handle.
    pub stop_handle: H,
    /// Registered methods.
    pub methods: M,
}

impl<'a, L, M, H> ProcessConnection<'a, L, M, H> {
    /// `service` serves the connection; its guard is the one that all connections share.
    pub open spec fn yields<C>(self, service: TowerServiceNoHttp<L, M, H, C>) -> bool {
        &&& service.rpc_middleware == self.rpc_middleware
        &&& service.inner.methods == self.methods
        &&& service.inner.stop_handle == self.stop_handle
        &&& service.inner.conn_id == self.conn_id
        &&& service.inner.conn_guard == *self.conn_guard
        &&& service.inner.server_cfg == self.server_cfg
        &&& service.on_session_close is None
        &&& service.attempts@ == 0
    }
}

/// The service of a new connection, given whether `TCP_NODELAY` could be set on its socket; `None`
/// where it could not, and the connection is given up.
pub fn process_connection<L, M, H, C, E>(
    params: ProcessConnection<'_, L, M, H>,
    nodelay: &Result<(), E>,
) -> (r: Option<TowerServiceNoHttp<L, M, H, C>>)
    ensures
        r is Some <==> nodelay is Ok,
        r matches Some(service) ==> params.yields(service),
{
    if nodelay.is_err() {
        return None;
    }
    let inner = ServiceData {
        server_cfg: params.server_cfg,
        methods: params.methods,
        stop_handle: params.stop_handle,
        conn_id: params.conn_id,
        conn_guard: params.conn_guard.clone(),
    };
    Some(TowerServiceNoHttp::new(inner, params.rpc_middleware))
}

/// How far a connection is.
#[derive(Debug, Clone, Copy, PartialEq, Eq, Structural)]
pub enum ConnectionPhase {
    /// It is served.
    Serving,
    /// The server was stopped; requests that are under way are finished.
    ShuttingDown,
    /// It has come to an end.
    Finished,
}

/// What happens to a connection.
#[derive(Debug, Clone, Copy, PartialEq, Eq, Structural)]
pub enum ConnectionEvent {
    /// The connection came to an end.
    Ended,
    /// The server was stopped.
    StopRequested,
}

/// What is to be done with a connection.
#[derive(Debug, Clone, Copy, PartialEq, Eq, Structural)]
pub enum ConnectionAction {
    /// Go on serving it.
    Poll,
    /// Start the graceful shutdown and go on serving it: it has to be polled until the shutdown can
    /// finish.
    GracefulShutdown,
    /// Report that it is complete.
    Complete,
}

/// The phase of a connection after an event.
pub open spec fn next_phase(phase: ConnectionPhase, event: ConnectionEvent) -> ConnectionPhase {
    match (phase, event) {
        (ConnectionPhase::Finished, _) => ConnectionPhase::Finished,
        (_, ConnectionEvent::Ended) => ConnectionPhase::Finished,
        (_, ConnectionEvent::StopRequested) => ConnectionPhase::ShuttingDown,
    }
}

/// What is done with a connection on an event.
pub open spec fn action_on(phase: ConnectionPhase, event: ConnectionEvent) -> ConnectionAction {
    match (phase, event) {
        (ConnectionPhase::Finished, _) => ConnectionAction::Complete,
        (_, ConnectionEvent::Ended) => ConnectionAction::Complete,
        (ConnectionPhase::Serving, ConnectionEvent::StopRequested) =>
            ConnectionAction::GracefulShutdown,
        (ConnectionPhase::ShuttingDown, ConnectionEvent::StopRequested) => ConnectionAction::Poll,
    }
}

/// Decides on what happens to a connection.
pub fn connection_step(phase: ConnectionPhase, event: ConnectionEvent) -> (r: (
    ConnectionPhase,
    ConnectionAction,
))
    ensures
        r.0 == next_phase(phase, event),
        r.1 == action_on(phase, event),
{
    match phase {
        ConnectionPhase::Finished => (ConnectionPhase::Finished, ConnectionAction::Complete),
        ConnectionPhase::Serving => match event {
            ConnectionEvent::Ended => (ConnectionPhase::Finished, ConnectionAction::Complete),
            ConnectionEvent::StopRequested => (
                ConnectionPhase::ShuttingDown,
                ConnectionAction::GracefulShutdown,
            ),
        },
        ConnectionPhase::ShuttingDown => match event {
            ConnectionEvent::Ended => (ConnectionPhase::Finished, ConnectionAction::Complete),
            ConnectionEvent::StopRequested => (
                ConnectionPhase::ShuttingDown,
                ConnectionAction::Poll,
            ),
        },
    }
}

} // verus!
