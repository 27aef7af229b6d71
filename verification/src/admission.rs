//! The service that admits requests, and the count of its attempts to do so.

use crate::service::{RpcServiceBuilder, ServiceData};
use vstd::prelude::*;

verus! {

/// Allows one attempt to acquire a permit, and is used up by it. It comes out of an
/// [`AttemptLog`] only, which counts it.
pub struct Attempt {
    used_up: (),
}

/// Counts the attempts of a service to acquire permits.
pub struct AttemptLog {
    made: Ghost<nat>,
}

impl View for AttemptLog {
    type V = nat;

    /// The number of attempts that were made.
    closed spec fn view(&self) -> nat {
        self.made@
    }
}

impl AttemptLog {
    fn new() -> (r: Self)
        ensures
            r@ == 0,
    {
        AttemptLog { made: Ghost(0) }
    }

    /// Allows one more attempt.
    pub(crate) fn attempt(&mut self) -> (r: Attempt)
        ensures
            final(self)@ == old(self)@ + 1,
    {
        proof {
            self.made@ = self.made@ + 1;
        }
        Attempt { used_up: () }
    }
}

/// Service without HTTP specific middleware. `C` tells the listeners of a session that it has been
/// closed.
#[verifier::reject_recursive_types(L)]
pub struct TowerServiceNoHttp<L, M, H, C> {
    /// What requests are handled with.
    pub inner: ServiceData<M, H>,
    /// RPC middleware.
    pub rpc_middleware: RpcServiceBuilder<L>,
    /// Who is told that the session has been closed.
    pub on_session_close: Option<C>,
    /// How often the guard was asked for a permit.
    pub attempts: AttemptLog,
}

impl<L, M, H, C> TowerServiceNoHttp<L, M, H, C> {
    /// A service that has not been called yet.
    pub(crate) fn new(inner: ServiceData<M, H>, rpc_middleware: RpcServiceBuilder<L>) -> (r: Self)
        ensures
            r.inner == inner,
            r.rpc_middleware == rpc_middleware,
            r.on_session_close is None,
            r.attempts@ == 0,
    {
        TowerServiceNoHttp {
            inner,
            rpc_middleware,
            on_session_close: None,
            attempts: AttemptLog::new(),
        }
    }
}

impl<L: Clone, M: Clone, H: Clone, C: Clone> TowerServiceNoHttp<L, M, H, C> {
    /// `other` is a clone, with the same guard, that has not been called yet.
    pub open spec fn cloned_as(self, other: Self) -> bool {
        &&& self.inner.cloned_as(other.inner)
        &&& cloned(self.rpc_middleware.0, other.rpc_middleware.0)
        &&& match (self.on_session_close, other.on_session_close) {
            (Some(a), Some(b)) => cloned(a, b),
            (None, None) => true,
            _ => false,
        }
        &&& other.attempts@ == 0
    }
}

impl<L: Clone, M: Clone, H: Clone, C: Clone> Clone for TowerServiceNoHttp<L, M, H, C> {
    fn clone(&self) -> (r: Self)
        ensures
            self.cloned_as(r),
    {
        TowerServiceNoHttp {
            inner: self.inner.clone(),
            rpc_middleware: self.rpc_middleware.clone(),
            on_session_close: self.on_session_close.clone(),
            attempts: AttemptLog::new(),
        }
    }
}

} // verus!
