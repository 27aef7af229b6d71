//! What holds of the server as a whole.

use crate::accept::{
    action_on, id_of, next_phase, AcceptConnection, AcceptLoopView, ConnectionAction,
    ConnectionEvent, ConnectionPhase, ProcessConnection, ServerPhase,
};
use crate::builder::{nth_id, TowerServiceBuilder};
use crate::config::{BatchRequestConfig, Settings};
use crate::connection_manager::{
    failures, ids, successes, targeted, targets_all, targets_matching, targets_sound,
    ConnectionId, ConnectionManager, MultiSend, NotificationError, SharedConnectionManager,
};
use crate::handshake::{ascii, HandshakeHeaders, RequestHead};
use crate::rpc::{
    batch_action, json_array_elements, rpc_action, single_action, too_large, BatchEntry,
    BatchEntryErr, RpcAction,
};
use crate::service::{
    hears, listens, route_of, served, CallAction, Route, ServiceData, TowerService, TowerServiceNoHttp,
};
use crate::types::{too_big_batch_error, Id};
use tokio::sync::{OwnedSemaphorePermit, RwLock};
use vstd::prelude::*;

verus! {

/// A connection that has been registered is active with its sink, whether or not it was before,
/// and the other connections stay as they were.
pub proof fn registered_is_active<S>(connections: Map<usize, S>, id: usize, sink: S, other: usize)
    ensures
        connections.insert(id, sink).contains_key(id),
        connections.insert(id, sink)[id] == sink,
        other != id ==> connections.insert(id, sink).contains_key(other)
            == connections.contains_key(other),
        other != id && connections.contains_key(other) ==> connections.insert(id, sink)[other]
            == connections[other],
{
}

/// Registering a connection counts it once; registering it again does not count it again.
pub proof fn registered_is_counted_once<S>(connections: Map<usize, S>, id: usize, sink: S, again: S)
    requires
        connections.dom().finite(),
    ensures
        connections.insert(id, sink).len() == if connections.contains_key(id) {
            connections.len()
        } else {
            connections.len() + 1
        },
        connections.insert(id, sink).insert(id, again).len() == connections.insert(id, sink).len(),
{
    assert(connections.insert(id, sink).insert(id, again).dom() =~= connections.insert(
        id,
        sink,
    ).dom());
}

/// Unregistering undoes registering: a connection that was not active is not active again, and the
/// others stay as they were.
pub proof fn unregister_undoes_register<S>(connections: Map<usize, S>, id: usize, sink: S)
    ensures
        connections.insert(id, sink).remove(id) == connections.remove(id),
        !connections.contains_key(id) ==> connections.insert(id, sink).remove(id) == connections,
{
    assert(connections.insert(id, sink).remove(id) =~= connections.remove(id));
    if !connections.contains_key(id) {
        assert(connections.remove(id) =~= connections);
    }
}

/// A connection that is unregistered a second time changes nothing.
pub proof fn unregister_twice<S>(connections: Map<usize, S>, id: usize)
    ensures
        !connections.remove(id).contains_key(id),
        connections.remove(id).remove(id) == connections.remove(id),
{
    assert(connections.remove(id).remove(id) =~= connections.remove(id));
}

/// A change of the active connections.
pub enum RegistryCall<S> {
    /// The connection is registered with the sink.
    Register(ConnectionId, S),
    /// The connection is unregistered.
    Unregister(ConnectionId),
}

impl<S> RegistryCall<S> {
    /// The connection that the call names.
    pub open spec fn conn_id(self) -> ConnectionId {
        match self {
            RegistryCall::Register(conn_id, _) => conn_id,
            RegistryCall::Unregister(conn_id) => conn_id,
        }
    }
}

/// The active connections after the calls.
pub open spec fn registry_after<S>(
    connections: Map<usize, S>,
    calls: Seq<RegistryCall<S>>,
) -> Map<usize, S>
    decreases calls.len(),
{
    if calls.len() == 0 {
        connections
    } else {
        let before = registry_after(connections, calls.drop_last());
        match calls.last() {
            RegistryCall::Register(conn_id, sink) => before.insert(conn_id.0, sink),
            RegistryCall::Unregister(conn_id) => before.remove(conn_id.0),
        }
    }
}

/// The last of the calls that names the connection.
pub open spec fn last_call<S>(calls: Seq<RegistryCall<S>>, id: ConnectionId) -> Option<
    RegistryCall<S>,
>
    decreases calls.len(),
{
    if calls.len() == 0 {
        None
    } else if calls.last().conn_id() == id {
        Some(calls.last())
    } else {
        last_call(calls.drop_last(), id)
    }
}

/// The last call that names a connection decides whether it is active, and with which sink; without
/// such a call it stays as it was.
pub proof fn last_call_decides<S>(
    connections: Map<usize, S>,
    calls: Seq<RegistryCall<S>>,
    id: ConnectionId,
)
    ensures
        ({
            let after = registry_after(connections, calls);
            match last_call(calls, id) {
                Some(RegistryCall::Register(_, sink)) => after.contains_key(id.0) && after[id.0]
                    == sink,
                Some(RegistryCall::Unregister(_)) => !after.contains_key(id.0),
                None => {
                    &&& after.contains_key(id.0) == connections.contains_key(id.0)
                    &&& after.contains_key(id.0) ==> after[id.0] == connections[id.0]
                },
            }
        }),
    decreases calls.len(),
{
    if calls.len() > 0 {
        last_call_decides(connections, calls.drop_last(), id);
    }
}

/// The active connections of the owners' registry that the lock guards, after calls that each went
/// through one owner, or through one of another registry.
pub open spec fn shared_registry_after<S>(
    lock: RwLock<ConnectionManager<S>>,
    calls: Seq<(SharedConnectionManager<S>, RegistryCall<S>)>,
) -> Map<usize, S> {
    registry_after(Map::empty(), calls_through(lock, calls))
}

/// The calls that went through an owner of the registry.
pub open spec fn calls_through<S>(
    lock: RwLock<ConnectionManager<S>>,
    calls: Seq<(SharedConnectionManager<S>, RegistryCall<S>)>,
) -> Seq<RegistryCall<S>>
    decreases calls.len(),
{
    if calls.len() == 0 {
        seq![]
    } else if calls.last().0@ == lock {
        calls_through(lock, calls.drop_last()).push(calls.last().1)
    } else {
        calls_through(lock, calls.drop_last())
    }
}

/// Clones of a connection manager share one registry: a connection is active for one of them exactly
/// if it is for the other, and the last call that names it, through either of them, decides.
pub proof fn clones_share_one_registry<S>(
    manager: SharedConnectionManager<S>,
    other: SharedConnectionManager<S>,
    calls: Seq<(SharedConnectionManager<S>, RegistryCall<S>)>,
    id: ConnectionId,
)
    requires
        other == manager,
        forall|i: int|
            0 <= i < calls.len() ==> (#[trigger] calls[i]).0 == manager || calls[i].0 == other,
    ensures
        shared_registry_after(manager@, calls) == shared_registry_after(other@, calls),
        shared_registry_after(manager@, calls).contains_key(id.0) <==> last_call(
            Seq::new(calls.len(), |i: int| calls[i].1),
            id,
        ) matches Some(RegistryCall::Register(_, _)),
{
    all_calls_go_through(manager, calls);
    last_call_decides(Map::empty(), calls_through(manager@, calls), id);
}

proof fn all_calls_go_through<S>(
    manager: SharedConnectionManager<S>,
    calls: Seq<(SharedConnectionManager<S>, RegistryCall<S>)>,
)
    requires
        forall|i: int| 0 <= i < calls.len() ==> (#[trigger] calls[i]).0 == manager,
    ensures
        calls_through(manager@, calls) == Seq::new(calls.len(), |i: int| calls[i].1),
    decreases calls.len(),
{
    if calls.len() > 0 {
        let rest = calls.drop_last();
        assert forall|i: int| 0 <= i < rest.len() implies (#[trigger] rest[i]).0 == manager by {
            assert(calls[i].0 == manager);
        }
        all_calls_go_through(manager, rest);
        assert(calls[calls.len() - 1].0 == manager);
        assert(calls_through(manager@, calls) =~= Seq::new(calls.len(), |i: int| calls[i].1));
    }
}

/// A notification to a list of connections that is done has one result for each of them, in their
/// order: not found exactly for those that are not active, else success or a closed connection.
pub proof fn one_result_for_each_connection<S>(sending: MultiSend<'_, S>, i: int)
    requires
        sending.wf(),
        sending@.done(),
        0 <= i < sending@.conn_ids.len(),
    ensures
        sending@.results.len() == sending@.conn_ids.len(),
        sending@.results[i] == Err::<(), _>(
            NotificationError::ConnectionNotFound(sending@.conn_ids[i]),
        ) <==> !sending@.connections.contains_key(sending@.conn_ids[i].0),
        sending@.connections.contains_key(sending@.conn_ids[i].0) ==> {
            ||| sending@.results[i] == Ok::<(), NotificationError>(())
            ||| sending@.results[i] == Err::<(), _>(NotificationError::ConnectionClosed)
        },
{
    assert(sending@.fits(i));
}

/// Every connection that a broadcast tried to reach is counted once: as reached, or as failed.
pub proof fn each_outcome_is_counted<S>(targets: Seq<(ConnectionId, S)>, outcomes: Seq<bool>)
    ensures
        successes(outcomes) + failures(targets, outcomes).len() == outcomes.len(),
    decreases outcomes.len(),
{
    if outcomes.len() > 0 {
        each_outcome_is_counted(targets, outcomes.drop_last());
    }
}

/// The connections that a broadcast reports as failed are those that it did not reach.
pub proof fn failed_are_those_not_reached<S>(
    targets: Seq<(ConnectionId, S)>,
    outcomes: Seq<bool>,
    id: ConnectionId,
)
    requires
        outcomes.len() <= targets.len(),
    ensures
        failures(targets, outcomes).contains(id) <==> exists|i: int|
            0 <= i < outcomes.len() && !outcomes[i] && (#[trigger] targets[i]).0 == id,
    decreases outcomes.len(),
{
    if outcomes.len() > 0 {
        let rest = outcomes.drop_last();
        let last = outcomes.len() - 1;
        failed_are_those_not_reached(targets, rest, id);
        let before = failures(targets, rest);
        let after = failures(targets, outcomes);
        if before.contains(id) {
            let k = choose|k: int| 0 <= k < before.len() && before[k] == id;
            assert(after[k] == id);
            let i = choose|i: int|
                0 <= i < rest.len() && !rest[i] && (#[trigger] targets[i]).0 == id;
            assert(!outcomes[i]);
        }
        if after.contains(id) && !before.contains(id) {
            let k = choose|k: int| 0 <= k < after.len() && after[k] == id;
            assert(k == before.len());
            assert(!outcomes[last] && targets[last].0 == id);
        }
        if exists|i: int| 0 <= i < outcomes.len() && !outcomes[i] && (#[trigger] targets[i]).0
            == id {
            let i = choose|i: int|
                0 <= i < outcomes.len() && !outcomes[i] && (#[trigger] targets[i]).0 == id;
            if i < last {
                assert(!rest[i]);
            } else {
                assert(after[before.len() as int] == id);
            }
        }
    }
}

/// The numbers of the targets.
spec fn listed<S>(targets: Seq<(ConnectionId, S)>) -> Seq<usize> {
    Seq::new(targets.len(), |i: int| targets[i].0.0)
}

proof fn listed_is_a_set<S>(targets: Seq<(ConnectionId, S)>, connections: Map<usize, S>)
    requires
        targets_sound(targets, connections),
    ensures
        listed(targets).to_set().len() == targets.len(),
        listed(targets).to_set().finite(),
        forall|id: usize| #[trigger]
            listed(targets).to_set().contains(id) <==> targeted(targets, id),
        listed(targets).to_set().subset_of(connections.dom()),
{
    let ids = listed(targets);
    assert forall|i: int, j: int| 0 <= i < j < ids.len() implies ids[i] != ids[j] by {
        assert(targets[i].0 != targets[j].0);
    }
    ids.unique_seq_to_set();
    assert forall|id: usize| #[trigger] ids.to_set().contains(id) <==> targeted(targets, id) by {
        if targeted(targets, id) {
            let i = choose|i: int| 0 <= i < targets.len() && (#[trigger] targets[i]).0.0 == id;
            assert(ids[i] == id);
        }
        if ids.contains(id) {
            let i = choose|i: int| 0 <= i < ids.len() && ids[i] == id;
            assert(targets[i].0.0 == id);
        }
    }
}

/// The list of targets is no longer than the connections are many.
proof fn targets_are_bounded<S>(targets: Seq<(ConnectionId, S)>, connections: Map<usize, S>)
    requires
        connections.dom().finite(),
        targets_sound(targets, connections),
    ensures
        targets.len() <= connections.len(),
        targets_all(targets, connections) ==> targets.len() == connections.len(),
{
    let ids = listed(targets).to_set();
    listed_is_a_set(targets, connections);
    vstd::set_lib::lemma_len_subset(ids, connections.dom());
    if targets_all(targets, connections) {
        assert forall|id: usize| connections.dom().contains(id) implies ids.contains(id) by {
            assert(targeted(targets, id));
        }
        assert(ids =~= connections.dom());
    }
}

proof fn all_reached(outcomes: Seq<bool>)
    requires
        forall|i: int| 0 <= i < outcomes.len() ==> outcomes[i],
    ensures
        successes(outcomes) == outcomes.len(),
    decreases outcomes.len(),
{
    if outcomes.len() > 0 {
        all_reached(outcomes.drop_last());
    }
}

/// Where every sink takes the notification, the numbers of connections that a filter and its
/// opposite reach add up to the number of active connections.
pub proof fn filter_and_opposite_reach_everyone<
    S,
    P: Fn(ConnectionId) -> bool,
    Q: Fn(ConnectionId) -> bool,
>(
    connections: Map<usize, S>,
    matching: spec_fn(ConnectionId) -> bool,
    filter: P,
    targets: Seq<(ConnectionId, S)>,
    outcomes: Seq<bool>,
    opposite: Q,
    other_targets: Seq<(ConnectionId, S)>,
    other_outcomes: Seq<bool>,
)
    requires
        connections.dom().finite(),
        forall|id: ConnectionId, r: bool| #[trigger] filter.ensures((id,), r) ==> r == matching(id),
        forall|id: ConnectionId, r: bool| #[trigger]
            opposite.ensures((id,), r) ==> r == !matching(id),
        targets_matching(targets, connections, filter),
        targets_matching(other_targets, connections, opposite),
        outcomes.len() == targets.len(),
        other_outcomes.len() == other_targets.len(),
        forall|i: int| 0 <= i < outcomes.len() ==> outcomes[i],
        forall|i: int| 0 <= i < other_outcomes.len() ==> other_outcomes[i],
    ensures
        successes(outcomes) + successes(other_outcomes) == connections.len(),
{
    let ids = listed(targets).to_set();
    let others = listed(other_targets).to_set();
    listed_is_a_set(targets, connections);
    listed_is_a_set(other_targets, connections);
    all_reached(outcomes);
    all_reached(other_outcomes);
    assert forall|id: usize| #[trigger] connections.dom().contains(id) implies ids.contains(id)
        == matching(ConnectionId(id)) && others.contains(id) == !matching(ConnectionId(id)) by {
        assert(connections.contains_key(id));
        if targeted(targets, id) {
            let i = choose|i: int| 0 <= i < targets.len() && (#[trigger] targets[i]).0.0 == id;
            assert(targets[i].0 == ConnectionId(id));
            assert(filter.ensures((targets[i].0,), true));
        }
        if targeted(other_targets, id) {
            let i = choose|i: int|
                0 <= i < other_targets.len() && (#[trigger] other_targets[i]).0.0 == id;
            assert(other_targets[i].0 == ConnectionId(id));
            assert(opposite.ensures((other_targets[i].0,), true));
        }
    }
    assert(ids.disjoint(others));
    assert(ids + others =~= connections.dom());
    vstd::set_lib::lemma_set_disjoint_lens(ids, others);
}

/// A broadcast to all connections that is done has reached or failed to reach each of them, once.
pub proof fn broadcast_covers_every_connection<S>(
    connections: Map<usize, S>,
    targets: Seq<(ConnectionId, S)>,
    outcomes: Seq<bool>,
)
    requires
        connections.dom().finite(),
        targets_all(targets, connections),
        outcomes.len() == targets.len(),
    ensures
        successes(outcomes) + failures(targets, outcomes).len() == connections.len(),
{
    each_outcome_is_counted(targets, outcomes);
    targets_are_bounded(targets, connections);
}

/// A broadcast never reports more connections reached than there are, whatever its filter.
pub proof fn broadcast_reaches_at_most_all<S, P: Fn(ConnectionId) -> bool>(
    connections: Map<usize, S>,
    targets: Seq<(ConnectionId, S)>,
    filter: P,
    outcomes: Seq<bool>,
)
    requires
        connections.dom().finite(),
        targets_matching(targets, connections, filter),
        outcomes.len() <= targets.len(),
    ensures
        successes(outcomes) <= connections.len(),
{
    each_outcome_is_counted(targets, outcomes);
    targets_are_bounded(targets, connections);
}

/// A filter that lets every connection through makes a broadcast to all connections.
pub proof fn filter_of_everyone<S, P: Fn(ConnectionId) -> bool>(
    connections: Map<usize, S>,
    targets: Seq<(ConnectionId, S)>,
    filter: P,
)
    requires
        targets_matching(targets, connections, filter),
        forall|id: ConnectionId| !#[trigger] filter.ensures((id,), false),
    ensures
        targets_all(targets, connections),
{
}

/// A filter that lets no connection through reaches none, and none is cleaned up after it.
pub proof fn filter_of_no_one<S, P: Fn(ConnectionId) -> bool>(
    connections: Map<usize, S>,
    targets: Seq<(ConnectionId, S)>,
    filter: P,
    outcomes: Seq<bool>,
)
    requires
        targets_matching(targets, connections, filter),
        forall|id: ConnectionId| !#[trigger] filter.ensures((id,), true),
        outcomes.len() <= targets.len(),
    ensures
        targets.len() == 0,
        successes(outcomes) == 0,
        connections.remove_keys(ids(failures(targets, outcomes)).to_set()) == connections,
{
    if targets.len() > 0 {
        assert(filter.ensures((targets[0].0,), true));
    }
    each_outcome_is_counted(targets, outcomes);
    assert(connections.remove_keys(ids(failures(targets, outcomes)).to_set()) =~= connections);
}

/// Cleaning up after a broadcast unregisters the connections that it failed to reach and no others.
pub proof fn cleanup_removes_the_failed<S>(
    connections: Map<usize, S>,
    targets: Seq<(ConnectionId, S)>,
    outcomes: Seq<bool>,
    id: usize,
)
    requires
        targets_sound(targets, connections),
        outcomes.len() == targets.len(),
    ensures
        ({
            let left = connections.remove_keys(ids(failures(targets, outcomes)).to_set());
            let failed = exists|i: int|
                0 <= i < outcomes.len() && !outcomes[i] && (#[trigger] targets[i]).0.0 == id;
            &&& left.contains_key(id) <==> connections.contains_key(id) && !failed
            &&& left.contains_key(id) ==> left[id] == connections[id]
        }),
{
    let failed = failures(targets, outcomes);
    failed_are_those_not_reached(targets, outcomes, ConnectionId(id));
    assert(ids(failed).to_set().contains(id) <==> failed.contains(ConnectionId(id))) by {
        if ids(failed).contains(id) {
            let k = choose|k: int| 0 <= k < ids(failed).len() && ids(failed)[k] == id;
            assert(failed[k] == ConnectionId(id));
        }
        if failed.contains(ConnectionId(id)) {
            let k = choose|k: int| 0 <= k < failed.len() && failed[k] == ConnectionId(id);
            assert(ids(failed)[k] == id);
        }
    }
    assert((exists|i: int|
        0 <= i < outcomes.len() && !outcomes[i] && (#[trigger] targets[i]).0 == ConnectionId(id))
        <==> (exists|i: int|
        0 <= i < outcomes.len() && !outcomes[i] && (#[trigger] targets[i]).0.0 == id)) by {
        if exists|i: int|
            0 <= i < outcomes.len() && !outcomes[i] && (#[trigger] targets[i]).0.0 == id {
            let i = choose|i: int|
                0 <= i < outcomes.len() && !outcomes[i] && (#[trigger] targets[i]).0.0 == id;
            assert(targets[i].0 == ConnectionId(id));
        }
    }
}

/// A server that only serves WebSocket connections denies every request that asks for no upgrade.
pub proof fn ws_only_denies_http(settings: Settings)
    requires
        settings.enable_ws,
        !settings.enable_http,
    ensures
        route_of(settings, false) == Route::Denied,
        route_of(settings, true) == Route::WebSocket,
{
}

/// A server that only serves HTTP denies every request that asks for an upgrade.
pub proof fn http_only_denies_upgrades(settings: Settings)
    requires
        settings.enable_http,
        !settings.enable_ws,
    ensures
        route_of(settings, true) == Route::Denied,
        route_of(settings, false) == Route::Http,
{
}

/// Whatever a server is configured to, it serves some requests, and it denies none where both
/// transports are enabled.
pub proof fn some_requests_are_served(settings: Settings)
    requires
        settings.valid(),
    ensures
        route_of(settings, true) != Route::Denied || route_of(settings, false) != Route::Denied,
        settings.enable_http && settings.enable_ws ==> forall|upgrade: bool| #[trigger]
            route_of(settings, upgrade) != Route::Denied,
{
}

/// A request is answered that there are too many connections exactly if it was given no permit. A
/// permit is held on to exactly if the request is served.
pub proof fn only_requests_with_a_permit_are_served<M, H: Clone, C>(
    data: ServiceData<M, H>,
    permit: Option<OwnedSemaphorePermit>,
    on_session_close: Option<C>,
    head: RequestHead,
    action: CallAction<H, C>,
)
    requires
        served(data, permit, on_session_close, head, action),
    ensures
        action is TooManyRequests <==> permit is None,
        action matches CallAction::WebSocket { conn, .. } ==> permit == Some(*conn.conn_permit),
        action matches CallAction::Http { conn, .. } ==> permit == Some(*conn.conn_permit),
        action matches CallAction::WebSocket { conn, .. } ==> conn.conn_id == data.conn_id,
        action matches CallAction::Http { conn, .. } ==> conn.conn_id == data.conn_id,
{
}

/// Whatever a request asks for, it is answered that there are too many connections where the guard
/// of the service gives no permit, and only there.
pub proof fn full_guard_refuses<L, M, H: Clone, C>(
    service: TowerServiceNoHttp<L, M, H, C>,
    head: RequestHead,
    action: CallAction<H, C>,
)
    requires
        service.decides(head, action),
    ensures
        (forall|permit: Option<OwnedSemaphorePermit>| #[trigger]
            service.inner.conn_guard.answers(permit) ==> permit is None)
            ==> action is TooManyRequests,
        (forall|permit: Option<OwnedSemaphorePermit>| #[trigger]
            service.inner.conn_guard.answers(permit) ==> permit is Some) ==> !(
        action is TooManyRequests),
        action is TooManyRequests ==> service.inner.conn_guard.answers(None),
{
}

/// All connections that are served with one guard ask the same guard for their permits.
pub proof fn connections_share_one_guard<L, M, H, C>(
    one: ProcessConnection<'_, L, M, H>,
    service: TowerServiceNoHttp<L, M, H, C>,
    other: ProcessConnection<'_, L, M, H>,
    other_service: TowerServiceNoHttp<L, M, H, C>,
    permit: Option<OwnedSemaphorePermit>,
)
    requires
        *one.conn_guard == *other.conn_guard,
        one.yields(service),
        other.yields(other_service),
    ensures
        service.inner.conn_guard == other_service.inner.conn_guard,
        service.inner.conn_guard.answers(permit) == other_service.inner.conn_guard.answers(permit),
{
}

/// Services that are built by a builder and its clones ask the same guard for their permits. Their
/// connection ids start with the one that was configured, each build increases them by one, and
/// they differ as long as the counter has not come round.
pub proof fn built_services_share_guard_and_ids<R, T, M, H, C>(
    builder: TowerServiceBuilder<R, T>,
    methods: M,
    stop_handle: H,
    given: u32,
    service: TowerService<R, T, M, H, C>,
    other: TowerServiceBuilder<R, T>,
    other_methods: M,
    other_stop_handle: H,
    other_given: u32,
    other_service: TowerService<R, T, M, H, C>,
)
    requires
        other.conn_id == builder.conn_id,
        other.conn_guard == builder.conn_guard,
        builder.builds(methods, stop_handle, nth_id(builder.conn_id@, given), service),
        other.builds(
            other_methods,
            other_stop_handle,
            nth_id(other.conn_id@, other_given),
            other_service,
        ),
    ensures
        ({
            let data = service.rpc_middleware.inner;
            let other_data = other_service.rpc_middleware.inner;
            &&& data.conn_guard == other_data.conn_guard
            &&& given == 0 ==> data.conn_id == builder.conn_id@
            &&& other_given == given + 1 ==> other_data.conn_id == id_of((data.conn_id + 1) as nat)
            &&& other_given != given ==> other_data.conn_id != data.conn_id
            &&& service.rpc_middleware.on_session_close is None
        }),
{
}

/// The permits that are held until what is to be done with a request has been done.
pub open spec fn permits_held<H, C>(action: CallAction<H, C>) -> int {
    if action is WebSocket || action is Http {
        1
    } else {
        0
    }
}

/// A use of a guard.
pub enum GuardUse<M, H, C> {
    /// A request was decided on, with a permit or none. Before and after it the service had made as
    /// many attempts to acquire one.
    Called {
        data: ServiceData<M, H>,
        attempts_before: nat,
        attempts_after: nat,
        permit: Option<OwnedSemaphorePermit>,
        on_session_close: Option<C>,
        head: RequestHead,
        action: CallAction<H, C>,
    },
    /// A request that held a permit has been served.
    Completed,
}

/// The permits that are held after the uses.
pub open spec fn held_after<M, H, C>(uses: Seq<GuardUse<M, H, C>>) -> int
    decreases uses.len(),
{
    if uses.len() == 0 {
        0
    } else {
        held_after(uses.drop_last()) + match uses.last() {
            GuardUse::Called { action, .. } => permits_held(action),
            GuardUse::Completed => -1,
        }
    }
}

/// The use at the position is one of a guard with `max` permits that no one else uses. Every attempt
/// takes one permit as long as some are left, so the request is given the permit of its last attempt
/// exactly if there were enough for all of its attempts. A service makes one attempt for a request.
pub open spec fn fair_use<M, H: Clone, C>(max: nat, uses: Seq<GuardUse<M, H, C>>, i: int) -> bool {
    let held = held_after(uses.take(i));
    match uses[i] {
        GuardUse::Called {
            data,
            attempts_before,
            attempts_after,
            permit,
            on_session_close,
            head,
            action,
        } => {
            &&& served(data, permit, on_session_close, head, action)
            &&& permit is Some <==> held + (attempts_after - attempts_before) <= max
            &&& attempts_after == attempts_before + 1
        },
        GuardUse::Completed => held > 0,
    }
}

/// No permit is lost and none is given out twice: at any time between none and all permits of a
/// guard are held. A request is refused exactly while all are held; one that is denied or fails its
/// handshake holds no permit on.
pub proof fn permits_are_given_back<M, H: Clone, C>(max: nat, uses: Seq<GuardUse<M, H, C>>)
    requires
        forall|i: int| 0 <= i < uses.len() ==> #[trigger] fair_use(max, uses, i),
    ensures
        0 <= held_after(uses) <= max,
        uses.len() > 0 ==> (uses.last() matches GuardUse::Called { permit, action, .. } ==> {
            let before = held_after(uses.drop_last());
            &&& action is TooManyRequests <==> before == max
            &&& held_after(uses) == before + permits_held(action)
            &&& action is Denied || action is HandshakeFailed ==> held_after(uses) == before
            &&& permits_held(action) == 1 ==> permit is Some
        }),
    decreases uses.len(),
{
    if uses.len() > 0 {
        let rest = uses.drop_last();
        let last = uses.len() - 1;
        assert forall|i: int| 0 <= i < rest.len() implies #[trigger] fair_use(max, rest, i) by {
            assert(rest.take(i) =~= uses.take(i));
            assert(fair_use(max, uses, i));
        }
        permits_are_given_back(max, rest);
        assert(uses.take(last) =~= rest);
        assert(fair_use(max, uses, last));
    }
}

/// Whoever is told first that a session has been closed is told, however often that is made sure
/// of: later calls replace no one. `notifiers` are those before the first call and after each.
pub proof fn first_notifier_is_kept<C, F: FnOnce() -> C>(
    notifiers: Seq<Option<C>>,
    creates: Seq<F>,
    n: int,
)
    requires
        notifiers.len() == creates.len() + 1,
        forall|i: int|
            0 <= i < creates.len() ==> listens(notifiers[i], #[trigger] creates[i], notifiers[i + 1]),
        1 <= n < notifiers.len(),
    ensures
        notifiers[n] is Some,
        notifiers[n] == notifiers[1],
        notifiers[0] is Some ==> notifiers[n] == notifiers[0],
    decreases n,
{
    assert(listens(notifiers[n - 1], creates[n - 1], notifiers[n]));
    if n > 1 {
        first_notifier_is_kept(notifiers, creates, n - 1);
    }
}

/// However often it is listened to that a session has been closed, all listeners listen to the one
/// notifier that goes with the next request. So where every listener of a notifier is told once it
/// reports, as `told` says, all of them are told.
pub proof fn all_listeners_are_told<M, H: Clone, C, W, F: FnOnce() -> C, G: Fn(&C) -> W>(
    notifiers: Seq<Option<C>>,
    creates: Seq<F>,
    listen: G,
    listeners: Seq<W>,
    told: spec_fn(C, W) -> bool,
    i: int,
    data: ServiceData<M, H>,
    permit: Option<OwnedSemaphorePermit>,
    head: RequestHead,
    action: CallAction<H, C>,
)
    requires
        notifiers.len() == creates.len() + 1,
        listeners.len() == creates.len(),
        forall|j: int|
            0 <= j < creates.len() ==> listens(notifiers[j], #[trigger] creates[j], notifiers[j + 1]),
        forall|j: int|
            0 <= j < listeners.len() ==> hears(notifiers[j + 1], listen, #[trigger] listeners[j]),
        forall|notifier: C, listener: W| #[trigger]
            listen.ensures((&notifier,), listener) ==> told(notifier, listener),
        0 <= i < listeners.len(),
        served(data, permit, notifiers.last(), head, action),
    ensures
        notifiers.last() matches Some(notifier) && told(notifier, listeners[i]),
        action matches CallAction::WebSocket { on_session_close, .. } ==> on_session_close
            == notifiers.last(),
{
    first_notifier_is_kept(notifiers, creates, i + 1);
    first_notifier_is_kept(notifiers, creates, notifiers.len() - 1);
    assert(hears(notifiers[i + 1], listen, listeners[i]));
}

/// A connection becomes a WebSocket connection only where the request asks for it, in version 13
/// of the protocol and with a key of 24 bytes.
pub proof fn only_complete_handshakes_upgrade(headers: HandshakeHeaders)
    requires
        headers.fault() is None,
    ensures
        headers.asks_for_upgrade(),
        headers.key.len() > 0 && headers.key[0].len() == 24,
        headers.version.len() > 0 && headers.version[0] == ascii("13"@),
{
}

/// A batch is handed to the service exactly if it is a JSON array that is not too large.
pub proof fn batches_are_limited<
    R,
    N,
    C: Fn(&[u8]) -> Option<R>,
    M: Fn(&[u8]) -> Option<N>,
    I: Fn(&[u8]) -> Option<Id>,
>(
    parse_call: C,
    parse_notification: M,
    parse_invalid: I,
    elements: Option<Seq<Seq<u8>>>,
    limit: Option<nat>,
    action: RpcAction<R, N>,
)
    requires
        batch_action(parse_call, parse_notification, parse_invalid, elements, limit, action),
    ensures
        action is Batch <==> elements is Some && !too_large(elements->0.len(), limit),
        action is Batch || action is Error,
        action matches RpcAction::Batch(batch) ==> batch@.len() == elements->0.len() && (
        limit is Some ==> batch@.len() <= limit->0),
        elements is Some && action is Error ==> (action matches RpcAction::Error(response)
            && response.error@ == too_big_batch_error(limit->0)),
{
}

/// A single message is never handed to the service as a batch.
pub proof fn single_messages_are_no_batches<
    R,
    N,
    C: Fn(&[u8]) -> Option<R>,
    M: Fn(&[u8]) -> Option<N>,
    I: Fn(&[u8]) -> Option<Id>,
>(
    parse_call: C,
    parse_notification: M,
    parse_invalid: I,
    body: Seq<u8>,
    action: RpcAction<R, N>,
)
    requires
        single_action(parse_call, parse_notification, parse_invalid, body, action),
    ensures
        !(action is Batch),
{
}

/// How batches are handled makes no difference to a single message. A batch that is not too large is
/// treated as if there were no limit.
pub proof fn unreached_limit_makes_no_difference<
    R,
    N,
    C: Fn(&[u8]) -> Option<R>,
    M: Fn(&[u8]) -> Option<N>,
    I: Fn(&[u8]) -> Option<Id>,
>(
    parse_call: C,
    parse_notification: M,
    parse_invalid: I,
    body: Seq<u8>,
    one: BatchRequestConfig,
    other: BatchRequestConfig,
    limit: u32,
    action: RpcAction<R, N>,
)
    ensures
        rpc_action(parse_call, parse_notification, parse_invalid, body, true, one, action)
            == rpc_action(parse_call, parse_notification, parse_invalid, body, true, other, action),
        (json_array_elements(body) matches Some(elements) ==> elements.len() <= limit)
            ==> rpc_action(
            parse_call,
            parse_notification,
            parse_invalid,
            body,
            false,
            BatchRequestConfig::Limit(limit),
            action,
        ) == rpc_action(
            parse_call,
            parse_notification,
            parse_invalid,
            body,
            false,
            BatchRequestConfig::Unlimited,
            action,
        ),
{
}

/// The parser returns what the text means.
pub open spec fn reads<O, F: Fn(&[u8]) -> Option<O>>(
    parser: F,
    meaning: spec_fn(Seq<u8>) -> Option<O>,
) -> bool {
    forall|s: &[u8], out: Option<O>| #[trigger] parser.ensures((s,), out) ==> out == meaning(s@)
}

/// The two entries of a batch are the same, down to what their errors say.
pub open spec fn same_entry<R, N>(
    a: Result<BatchEntry<R, N>, BatchEntryErr>,
    b: Result<BatchEntry<R, N>, BatchEntryErr>,
) -> bool {
    match (a, b) {
        (Ok(a), Ok(b)) => a == b,
        (Err(a), Err(b)) => a.id == b.id && a.error@ == b.error@,
        _ => false,
    }
}

/// The two actions are the same, down to what their errors say.
pub open spec fn same_action<R, N>(a: RpcAction<R, N>, b: RpcAction<R, N>) -> bool {
    match (a, b) {
        (RpcAction::Call(a), RpcAction::Call(b)) => a == b,
        (RpcAction::Notification(a), RpcAction::Notification(b)) => a == b,
        (RpcAction::Batch(a), RpcAction::Batch(b)) => a@.len() == b@.len() && forall|i: int|
            0 <= i < a@.len() ==> same_entry(#[trigger] a@[i], b@[i]),
        (RpcAction::Error(a), RpcAction::Error(b)) => a.id == b.id && a.error@ == b.error@,
        _ => false,
    }
}

/// With parsers that go by the text alone, what is done with a message is decided by its body and by
/// how batches are handled, and by the latter only for batches that are too large or not supported.
pub proof fn messages_are_decided_by_their_text<
    R,
    N,
    C: Fn(&[u8]) -> Option<R>,
    M: Fn(&[u8]) -> Option<N>,
    I: Fn(&[u8]) -> Option<Id>,
>(
    parse_call: C,
    calls: spec_fn(Seq<u8>) -> Option<R>,
    parse_notification: M,
    notifications: spec_fn(Seq<u8>) -> Option<N>,
    parse_invalid: I,
    invalid: spec_fn(Seq<u8>) -> Option<Id>,
    body: Seq<u8>,
    is_single: bool,
    one: BatchRequestConfig,
    action: RpcAction<R, N>,
    other: BatchRequestConfig,
    other_action: RpcAction<R, N>,
)
    requires
        reads(parse_call, calls),
        reads(parse_notification, notifications),
        reads(parse_invalid, invalid),
        rpc_action(parse_call, parse_notification, parse_invalid, body, is_single, one, action),
        rpc_action(
            parse_call,
            parse_notification,
            parse_invalid,
            body,
            is_single,
            other,
            other_action,
        ),
    ensures
        is_single ==> same_action(action, other_action),
        one == other ==> same_action(action, other_action),
        one is Limit && other is Unlimited && (json_array_elements(body) matches Some(elements)
            ==> elements.len() <= one->Limit_0) ==> same_action(action, other_action),
{
}

/// Connections are numbered from zero, and two of them have the same id only if the numbers of all
/// others were given out between them.
pub proof fn connection_ids_are_distinct(first: nat, second: nat)
    requires
        first < second,
        second - first < 0x1_0000_0000,
    ensures
        id_of(0) == 0,
        id_of(first) != id_of(second),
        second < 0x1_0000_0000 ==> id_of(second) == second,
{
}

/// The server after the outcomes of waiting for connections.
pub open spec fn server_after<T, A, E, S>(
    outcomes: Seq<AcceptConnection<T, A, E, S>>,
) -> AcceptLoopView
    decreases outcomes.len(),
{
    if outcomes.len() == 0 {
        AcceptLoopView::initial()
    } else {
        server_after(outcomes.drop_last()).after(outcomes.last())
    }
}

/// The id under which a connection is served is the number of connections that were established
/// before it; failures to accept a connection use up no id.
pub proof fn failures_use_up_no_id<T, A, E, S>(outcomes: Seq<AcceptConnection<T, A, E, S>>)
    ensures
        server_after(outcomes).established == outcomes.filter(
            |outcome: AcceptConnection<T, A, E, S>| outcome is Established,
        ).len(),
    decreases outcomes.len(),
{
    reveal(Seq::filter);
    if outcomes.len() > 0 {
        failures_use_up_no_id(outcomes.drop_last());
    }
}

/// A server accepts connections until it is told to stop, and waits for those that are left then.
pub proof fn server_accepts_until_stopped<T, A, E, S>(outcomes: Seq<AcceptConnection<T, A, E, S>>)
    ensures
        server_after(outcomes).phase == ServerPhase::Accepting <==> !(exists|i: int|
            0 <= i < outcomes.len() && (#[trigger] outcomes[i]) is Shutdown),
        server_after(outcomes).phase == ServerPhase::Draining <==> exists|i: int|
            0 <= i < outcomes.len() && (#[trigger] outcomes[i]) is Shutdown,
    decreases outcomes.len(),
{
    if outcomes.len() > 0 {
        let rest = outcomes.drop_last();
        server_accepts_until_stopped(rest);
        if exists|i: int| 0 <= i < rest.len() && (#[trigger] rest[i]) is Shutdown {
            let i = choose|i: int| 0 <= i < rest.len() && (#[trigger] rest[i]) is Shutdown;
            assert(outcomes[i] is Shutdown);
        }
        if exists|i: int| 0 <= i < outcomes.len() && (#[trigger] outcomes[i]) is Shutdown {
            let i = choose|i: int| 0 <= i < outcomes.len() && (#[trigger] outcomes[i]) is Shutdown;
            if i < rest.len() {
                assert(rest[i] is Shutdown);
            }
        }
    }
}

/// The phase of a connection after the events.
pub open spec fn phase_after(events: Seq<ConnectionEvent>) -> ConnectionPhase
    decreases events.len(),
{
    if events.len() == 0 {
        ConnectionPhase::Serving
    } else {
        next_phase(phase_after(events.drop_last()), events.last())
    }
}

/// What is done with a connection on the event at the position.
pub open spec fn action_at(events: Seq<ConnectionEvent>, i: int) -> ConnectionAction {
    action_on(phase_after(events.take(i)), events[i])
}

/// A connection is given up exactly when it has ended: stopping the server does not cut it off.
pub proof fn connections_end_by_themselves(events: Seq<ConnectionEvent>)
    ensures
        phase_after(events) == ConnectionPhase::Finished <==> events.contains(
            ConnectionEvent::Ended,
        ),
        phase_after(events) == ConnectionPhase::Serving <==> events.len() == 0,
    decreases events.len(),
{
    if events.len() > 0 {
        let rest = events.drop_last();
        connections_end_by_themselves(rest);
        if rest.contains(ConnectionEvent::Ended) {
            let i = choose|i: int| 0 <= i < rest.len() && rest[i] == ConnectionEvent::Ended;
            assert(events[i] == ConnectionEvent::Ended);
        }
        if events.contains(ConnectionEvent::Ended) && events.last() != ConnectionEvent::Ended {
            let i = choose|i: int| 0 <= i < events.len() && events[i] == ConnectionEvent::Ended;
            assert(rest[i] == ConnectionEvent::Ended);
        }
    }
}

/// A connection is told once to shut down gracefully.
pub proof fn graceful_shutdown_starts_once(events: Seq<ConnectionEvent>, i: int, j: int)
    requires
        0 <= i < j < events.len(),
        action_at(events, i) == ConnectionAction::GracefulShutdown,
    ensures
        action_at(events, j) != ConnectionAction::GracefulShutdown,
{
    connections_end_by_themselves(events.take(j));
}

} // verus!
