//! Connection manager for handling active WebSocket connections and sending notifications.

use crate::text::{decimal, decimal_text, json_string};
use std::collections::HashMap;
use std::sync::Arc;
use tokio::sync::RwLock;
use crate::outside::{json_string_text, new_lock, serializer_message};
use vstd::prelude::*;
use vstd::string::*;

verus! {

broadcast use vstd::std_specs::hash::group_hash_axioms;

/// Identifies a connection of the server.
#[derive(Debug, Copy, Clone, PartialEq, Eq, Hash, Structural)]
pub struct ConnectionId(pub usize);

impl From<u32> for ConnectionId {
    fn from(id: u32) -> (r: Self) {
        ConnectionId(id as usize)
    }
}

impl vstd::std_specs::convert::FromSpecImpl<u32> for ConnectionId {
    open spec fn obeys_from_spec() -> bool {
        true
    }

    open spec fn from_spec(id: u32) -> Self {
        ConnectionId(id as usize)
    }
}

/// Error types for notification operations.
#[derive(Debug)]
pub enum NotificationError {
    /// The specified connection ID was not found in the active connections.
    ConnectionNotFound(ConnectionId),
    /// The connection was closed before the notification could be sent.
    ConnectionClosed,
    /// Failed to serialize the notification message to JSON.
    SerializationError(serde_json::Error),
    /// Failed to send the notification through the connection sink.
    SendError,
}

impl From<serde_json::Error> for NotificationError {
    fn from(err: serde_json::Error) -> (r: Self) {
        NotificationError::SerializationError(err)
    }
}

impl vstd::std_specs::convert::FromSpecImpl<serde_json::Error> for NotificationError {
    open spec fn obeys_from_spec() -> bool {
        true
    }

    open spec fn from_spec(err: serde_json::Error) -> Self {
        NotificationError::SerializationError(err)
    }
}

impl NotificationError {
    /// What the error says, given what the serializer said where that failed.
    pub open spec fn described(self, cause: Seq<char>) -> Seq<char> {
        match self {
            NotificationError::ConnectionNotFound(conn_id) => "Connection ConnectionId("@ + decimal(
                conn_id.0 as nat,
            ) + ") not found"@,
            NotificationError::ConnectionClosed => "Connection closed"@,
            NotificationError::SerializationError(_) => "Serialization error: "@ + cause,
            NotificationError::SendError => "Send error"@,
        }
    }

    /// Describes the error, given what the serializer said where that failed.
    pub fn describe(&self, cause: &str) -> (r: String)
        ensures
            r@ == self.described(cause@),
    {
        match self {
            NotificationError::ConnectionNotFound(conn_id) => {
                let mut text = "Connection ConnectionId(".to_string();
                text.append(decimal_text(conn_id.0).as_str());
                text.append(") not found");
                text
            },
            NotificationError::ConnectionClosed => "Connection closed".to_string(),
            NotificationError::SerializationError(_) => {
                let mut text = "Serialization error: ".to_string();
                text.append(cause);
                text
            },
            NotificationError::SendError => "Send error".to_string(),
        }
    }

    /// `cause` is what the serializer says of its error, where that is what failed.
    pub closed spec fn caused_by(self, cause: String) -> bool {
        self matches NotificationError::SerializationError(err) ==> call_ensures(
            serializer_message,
            (&err,),
            cause,
        )
    }

    /// Describes the error, with what the serializer says of it where that failed.
    pub fn message(&self) -> (r: String)
        ensures
            exists|cause: String|
                #[trigger] self.caused_by(cause) && r@ == self.described(cause@),
    {
        let cause = match self {
            NotificationError::SerializationError(err) => serializer_message(err),
            _ => String::new(),
        };
        assert(self.caused_by(cause));
        self.describe(cause.as_str())
    }
}

/// What the serializer says of its error is the cause of an error that it made.
pub(crate) proof fn causes_are_the_words_of_the_serializer(
    error: NotificationError,
    err: serde_json::Error,
    cause: String,
)
    requires
        error == NotificationError::SerializationError(err),
        error.caused_by(cause),
    ensures
        call_ensures(serializer_message, (&err,), cause),
{
}

/// A JSON-RPC 2.0 notification message.
#[derive(Debug, Clone)]
pub struct Notification<T> {
    jsonrpc: String,
    method: String,
    params: T,
}

/// What a [`Notification`] holds.
#[verifier::ext_equal]
pub struct NotificationView<T> {
    pub jsonrpc: Seq<char>,
    pub method: Seq<char>,
    pub params: T,
}

impl<T> View for Notification<T> {
    type V = NotificationView<T>;

    closed spec fn view(&self) -> NotificationView<T> {
        NotificationView {
            jsonrpc: self.jsonrpc@,
            method: self.method@,
            params: self.params,
        }
    }
}

/// The JSON text of a notification, given the JSON text of its parameters.
pub open spec fn notification_json(
    jsonrpc: Seq<char>,
    method: Seq<char>,
    params: Seq<char>,
) -> Seq<char> {
    "{\"jsonrpc\":"@ + json_string(jsonrpc) + ",\"method\":"@ + json_string(method)
        + ",\"params\":"@ + params + "}"@
}

/// `r` is the outcome of writing the notification as JSON, where `serialize` writes the
/// parameters.
pub open spec fn written<T, F: Fn(&T) -> Result<String, serde_json::Error>>(
    notification: NotificationView<T>,
    serialize: F,
    r: Result<Seq<char>, serde_json::Error>,
) -> bool {
    match r {
        Ok(text) => exists|params: String|
            #[trigger] serialize.ensures((&notification.params,), Ok(params)) && text
                == notification_json(notification.jsonrpc, notification.method, params@),
        Err(err) => serialize.ensures((&notification.params,), Err(err)),
    }
}

impl<T> Notification<T> {
    /// Create a new notification with the given method and parameters.
    pub fn new<M: Into<String>>(method: M, params: T) -> (r: Self)
        ensures
            r@.jsonrpc == "2.0"@,
            exists|name: String|
                #[trigger] call_ensures(M::into, (method,), name) && r@.method == name@,
            r@.params == params,
    {
        Notification { jsonrpc: String::from("2.0"), method: method.into(), params }
    }

    /// Writes the notification as JSON; `serialize` writes the parameters.
    pub fn to_json<F: Fn(&T) -> Result<String, serde_json::Error>>(&self, serialize: &F) -> (r:
        Result<String, serde_json::Error>)
        requires
            forall|params: &T| #[trigger] serialize.requires((params,)),
        ensures
            written(
                self@,
                *serialize,
                match r {
                    Ok(text) => Ok(text@),
                    Err(err) => Err(err),
                },
            ),
    {
        let params = match serialize(&self.params) {
            Ok(params) => params,
            Err(err) => return Err(err),
        };
        assert(serialize.ensures((&self@.params,), Ok(params)));
        let mut text = "{\"jsonrpc\":".to_string();
        text.append(json_string_text(self.jsonrpc.as_str()).as_str());
        text.append(",\"method\":");
        text.append(json_string_text(self.method.as_str()).as_str());
        text.append(",\"params\":");
        text.append(params.as_str());
        text.append("}");
        Ok(text)
    }
}

/// Statistics about active connections.
#[derive(Debug, Clone)]
pub struct ConnectionStats {
    /// The total number of active connections currently managed.
    pub total_connections: usize,
    /// A list of all active connection IDs.
    pub active_connections: Vec<ConnectionId>,
}

/// The numbers of the connections.
pub open spec fn ids(connections: Seq<ConnectionId>) -> Seq<usize> {
    Seq::new(connections.len(), |i: int| connections[i].0)
}

/// Manages active WebSocket connections and provides notification functionality. `S` is the sink
/// through which messages reach the client of a connection.
#[derive(Debug)]
pub struct ConnectionManager<S> {
    connections: HashMap<usize, S>,
}

impl<S> View for ConnectionManager<S> {
    type V = Map<usize, S>;

    closed spec fn view(&self) -> Map<usize, S> {
        self.connections@
    }
}

impl<S> ConnectionManager<S> {
    /// Create a new connection manager.
    pub fn new() -> (r: Self)
        ensures
            r@ == Map::<usize, S>::empty(),
    {
        ConnectionManager { connections: HashMap::new() }
    }

    /// Register a new connection with its associated method sink.
    pub fn register_connection(&mut self, conn_id: ConnectionId, sink: S)
        ensures
            final(self)@ == old(self)@.insert(conn_id.0, sink),
    {
        self.connections.insert(conn_id.0, sink);
    }

    /// Unregister a connection when it's closed.
    pub fn unregister_connection(&mut self, conn_id: ConnectionId) -> (r: Option<S>)
        ensures
            final(self)@ == old(self)@.remove(conn_id.0),
            r == if old(self)@.contains_key(conn_id.0) {
                Some(old(self)@[conn_id.0])
            } else {
                None
            },
    {
        self.connections.remove(&conn_id.0)
    }

    /// Prepares a notification to a specific connection: hands out the sink and the JSON text that
    /// is to be sent through it. [`delivered`] says what the outcome of sending means.
    pub fn send_notification<T, F: Fn(&T) -> Result<String, serde_json::Error>>(
        &self,
        conn_id: ConnectionId,
        notification: Notification<T>,
        serialize: &F,
    ) -> (r: Result<(&S, String), NotificationError>)
        requires
            forall|params: &T| #[trigger] serialize.requires((params,)),
        ensures
            match r {
                Ok((sink, text)) => {
                    &&& self@.contains_key(conn_id.0)
                    &&& *sink == self@[conn_id.0]
                    &&& written(notification@, *serialize, Ok(text@))
                },
                Err(NotificationError::ConnectionNotFound(id)) => {
                    &&& !self@.contains_key(conn_id.0)
                    &&& id == conn_id
                },
                Err(NotificationError::SerializationError(err)) => {
                    &&& self@.contains_key(conn_id.0)
                    &&& written(notification@, *serialize, Err(err))
                },
                Err(_) => false,
            },
    {
        match self.connections.get(&conn_id.0) {
            Some(sink) => match notification.to_json(serialize) {
                Ok(text) => Ok((sink, text)),
                Err(err) => Err(NotificationError::from(err)),
            },
            None => Err(NotificationError::ConnectionNotFound(conn_id)),
        }
    }

    /// Prepares a notification to multiple specific connections.
    pub fn send_to_connections<'a, T, F: Fn(&T) -> Result<String, serde_json::Error>>(
        &'a self,
        conn_ids: &'a [ConnectionId],
        notification: Notification<T>,
        serialize: &F,
    ) -> (r: Result<(MultiSend<'a, S>, String), NotificationError>)
        requires
            forall|params: &T| #[trigger] serialize.requires((params,)),
        ensures
            match r {
                Ok((sending, text)) => {
                    &&& sending.wf()
                    &&& sending@ == (MultiSendView {
                        connections: self@,
                        conn_ids: conn_ids@,
                        results: Seq::<Result<(), NotificationError>>::empty(),
                    })
                    &&& written(notification@, *serialize, Ok(text@))
                },
                Err(NotificationError::SerializationError(err)) => written(
                    notification@,
                    *serialize,
                    Err(err),
                ),
                Err(_) => false,
            },
    {
        match notification.to_json(serialize) {
            Ok(text) => Ok((MultiSend { manager: self, conn_ids, results: Vec::new() }, text)),
            Err(err) => Err(NotificationError::from(err)),
        }
    }

    /// Prepares a broadcast of a notification to all active connections.
    pub fn broadcast_notification<'a, T, F: Fn(&T) -> Result<String, serde_json::Error>>(
        &'a self,
        notification: Notification<T>,
        serialize: &F,
    ) -> (r: Result<(Broadcast<'a, S>, String), NotificationError>)
        requires
            forall|params: &T| #[trigger] serialize.requires((params,)),
        ensures
            match r {
                Ok((broadcast, text)) => {
                    &&& broadcast.wf()
                    &&& broadcast@.outcomes == Seq::<bool>::empty()
                    &&& targets_all(broadcast@.targets, self@)
                    &&& written(notification@, *serialize, Ok(text@))
                },
                Err(NotificationError::SerializationError(err)) => written(
                    notification@,
                    *serialize,
                    Err(err),
                ),
                Err(_) => false,
            },
    {
        let text = match notification.to_json(serialize) {
            Ok(text) => text,
            Err(err) => return Err(NotificationError::from(err)),
        };
        Ok((Broadcast::new(self.connections_in_order()), text))
    }

    /// The active connections with their sinks, each once.
    fn connections_in_order(&self) -> (r: Vec<(ConnectionId, &S)>)
        ensures
            targets_all(sinks(r@), self@),
    {
        let mut targets: Vec<(ConnectionId, &S)> = Vec::new();
        let iter = self.connections.iter();
        let ghost order = vstd::std_specs::hash::into_iter(iter);
        assert(order == vstd::std_specs::iter::IteratorSpec::remaining(&iter).unref());
        assert(walks(order, self@)) by {
            lemma_walks(self.connections, vstd::std_specs::iter::IteratorSpec::remaining(&iter));
        }
        for pair in it: iter
            invariant
                it.seq().unref() == order,
                targets@.len() == it.index(),
                forall|i: int|
                    0 <= i < it.index() ==> (#[trigger] targets@[i]).0.0 == order[i].0
                        && *targets@[i].1 == order[i].1,
        {
            assert((*pair.0, *pair.1) == it.seq().unref()[it.index()]);
            targets.push((ConnectionId(*pair.0), pair.1));
        }
        proof {
            let all = sinks(targets@);
            assert forall|i: int, j: int| 0 <= i < j < all.len() implies (#[trigger] all[i]).0 != (
            #[trigger] all[j]).0 by {
                assert(order[i].0 != order[j].0);
            }
            assert forall|id: usize| #[trigger] self@.contains_key(id) implies targeted(all, id) by {
                let j = choose|j: int| 0 <= j < order.len() && (#[trigger] order[j]).0 == id;
                assert(all[j].0.0 == id);
            }
            assert forall|i: int| 0 <= i < all.len() implies self@.contains_key(
                (#[trigger] all[i]).0.0,
            ) && self@[all[i].0.0] == all[i].1 by {
                assert(self@.contains_key(order[i].0));
            }
        }
        targets
    }

    /// Prepares a broadcast of a notification to connections that match a filter predicate. The
    /// filter is asked about each connection when its turn comes.
    pub fn broadcast_filtered<
        'a,
        T,
        F: Fn(&T) -> Result<String, serde_json::Error>,
        P: Fn(ConnectionId) -> bool,
    >(&'a self, notification: Notification<T>, serialize: &F, filter: P) -> (r: Result<
        (FilteredBroadcast<'a, S, P>, String),
        NotificationError,
    >)
        requires
            forall|params: &T| #[trigger] serialize.requires((params,)),
            forall|id: ConnectionId| #[trigger] filter.requires((id,)),
        ensures
            match r {
                Ok((broadcast, text)) => {
                    &&& broadcast.wf()
                    &&& broadcast.filter() == filter
                    &&& broadcast@.connections == self@
                    &&& targets_all(broadcast@.order, self@)
                    &&& broadcast@.asked == 0
                    &&& broadcast@.targets == Seq::<(ConnectionId, S)>::empty()
                    &&& broadcast@.outcomes == Seq::<bool>::empty()
                    &&& written(notification@, *serialize, Ok(text@))
                },
                Err(NotificationError::SerializationError(err)) => written(
                    notification@,
                    *serialize,
                    Err(err),
                ),
                Err(_) => false,
            },
    {
        let text = match notification.to_json(serialize) {
            Ok(text) => text,
            Err(err) => return Err(NotificationError::from(err)),
        };
        let broadcast = FilteredBroadcast {
            order: self.connections_in_order(),
            asked: 0,
            filter,
            reached: Broadcast::new(Vec::new()),
            connections: Ghost(self@),
        };
        assert(broadcast@.targets =~= Seq::<(ConnectionId, S)>::empty());
        Ok((broadcast, text))
    }

    /// Unregisters the connections that a broadcast failed to reach.
    pub fn cleanup(&mut self, failed_connections: &Vec<ConnectionId>)
        ensures
            final(self)@ == old(self)@.remove_keys(ids(failed_connections@).to_set()),
    {
        let ghost before = self@;
        for i in 0..failed_connections.len()
            invariant
                self@ == before.remove_keys(ids(failed_connections@).take(i as int).to_set()),
        {
            let ghost before_id = ids(failed_connections@).take(i as int);
            let ghost with_id = ids(failed_connections@).take(i + 1);
            self.unregister_connection(failed_connections[i]);
            proof {
                assert(with_id == before_id.push(failed_connections@[i as int].0));
                lemma_to_set_push(before_id, failed_connections@[i as int].0);
            }
        }
        assert(ids(failed_connections@).take(failed_connections@.len() as int) == ids(
            failed_connections@,
        ));
    }

    /// Get the number of active connections.
    pub fn connection_count(&self) -> (r: usize)
        ensures
            r == self@.len(),
            self@.dom().finite(),
    {
        self.connections.len()
    }

    /// Check if a specific connection is active.
    pub fn is_connection_active(&self, conn_id: ConnectionId) -> (r: bool)
        ensures
            r == self@.contains_key(conn_id.0),
    {
        self.connections.contains_key(&conn_id.0)
    }

    /// Get statistics about active connections.
    pub fn get_stats(&self) -> (r: ConnectionStats)
        ensures
            r.total_connections == self@.len(),
            ids(r.active_connections@).no_duplicates(),
            ids(r.active_connections@).to_set() == self@.dom(),
            r.active_connections@.len() == r.total_connections,
    {
        let mut active_connections: Vec<ConnectionId> = Vec::new();
        let keys = self.connections.keys();
        let ghost order = vstd::std_specs::hash::into_iter_keys(keys);
        assert(order == vstd::std_specs::iter::IteratorSpec::remaining(&keys).unref());
        assert(order.no_duplicates());
        assert(order.to_set() == self@.dom());
        for key in it: keys
            invariant
                it.seq().unref() == order,
                active_connections@.len() == it.index(),
                forall|i: int|
                    0 <= i < it.index() ==> (#[trigger] active_connections@[i]).0 == order[i],
        {
            assert(*key == it.seq().unref()[it.index()]);
            active_connections.push(ConnectionId(*key));
        }
        assert(ids(active_connections@) == order);
        proof {
            order.unique_seq_to_set();
        }
        ConnectionStats { total_connections: self.connections.len(), active_connections }
    }
}

impl<S> Default for ConnectionManager<S> {
    fn default() -> (r: Self)
        ensures
            r@ == Map::<usize, S>::empty(),
    {
        Self::new()
    }
}

/// A connection manager that several owners use: the owners of clones share one registry of
/// connections.
#[derive(Debug)]
#[verifier::reject_recursive_types(S)]
pub struct SharedConnectionManager<S> {
    connections: Arc<RwLock<ConnectionManager<S>>>,
}

impl<S> View for SharedConnectionManager<S> {
    type V = RwLock<ConnectionManager<S>>;

    /// The lock around the registry.
    closed spec fn view(&self) -> RwLock<ConnectionManager<S>> {
        *self.connections
    }
}

/// The lock was made around a registry without connections.
pub closed spec fn starts_empty<S>(lock: RwLock<ConnectionManager<S>>) -> bool {
    exists|manager: ConnectionManager<S>|
        manager@ == Map::<usize, S>::empty() && #[trigger] call_ensures(
            new_lock::<ConnectionManager<S>>,
            (manager,),
            lock,
        )
}

impl<S> Clone for SharedConnectionManager<S> {
    fn clone(&self) -> (r: Self)
        ensures
            r == *self,
    {
        SharedConnectionManager { connections: Arc::clone(&self.connections) }
    }
}

impl<S> SharedConnectionManager<S> {
    /// Create a new connection manager.
    pub fn new() -> (r: Self)
        ensures
            starts_empty(r@),
    {
        SharedConnectionManager { connections: Arc::new(new_lock(ConnectionManager::new())) }
    }

    /// The lock around the registry that this owner shares.
    pub fn registry(&self) -> (r: &RwLock<ConnectionManager<S>>)
        ensures
            *r == self@,
    {
        &self.connections
    }
}

impl<S> Default for SharedConnectionManager<S> {
    fn default() -> (r: Self)
        ensures
            starts_empty(r@),
    {
        Self::new()
    }
}

proof fn lemma_to_set_push(s: Seq<usize>, x: usize)
    ensures
        s.push(x).to_set() == s.to_set().insert(x),
{
    assert forall|k: usize| s.push(x).to_set().contains(k) == s.to_set().insert(x).contains(k) by {
        if s.contains(k) {
            let i = choose|i: int| 0 <= i < s.len() && s[i] == k;
            assert(s.push(x)[i] == k);
        }
        assert(s.push(x)[s.len() as int] == x);
    }
}

/// `order` lists the entries of the map, each once.
spec fn walks<S>(order: Seq<(usize, S)>, connections: Map<usize, S>) -> bool {
    &&& forall|j: int|
        0 <= j < order.len() ==> connections.contains_key((#[trigger] order[j]).0)
            && connections[order[j].0] == order[j].1
    &&& forall|i: int, j: int|
        0 <= i < j < order.len() ==> (#[trigger] order[i]).0 != (#[trigger] order[j]).0
    &&& forall|k: usize| #[trigger]
        connections.contains_key(k) ==> exists|j: int|
            0 <= j < order.len() && (#[trigger] order[j]).0 == k
}

proof fn lemma_walks<S>(connections: HashMap<usize, S>, order: Seq<(&usize, &S)>)
    requires
        order.no_duplicates(),
        forall|i: int|
            0 <= i < order.len() ==> connections@.contains_key(*(#[trigger] order[i]).0)
                && connections@[*order[i].0] == *order[i].1,
        forall|k: usize| #[trigger]
            connections@.contains_key(k) ==> order.contains((&k, &connections@[k])),
    ensures
        walks(order.unref(), connections@),
{
    assert forall|i: int, j: int| 0 <= i < j < order.unref().len() implies (
    #[trigger] order.unref()[i]).0 != (#[trigger] order.unref()[j]).0 by {
        if order.unref()[i].0 == order.unref()[j].0 {
            assert(order[i] == order[j]);
        }
    }
    assert forall|k: usize| #[trigger] connections@.contains_key(k) implies exists|j: int|
        0 <= j < order.unref().len() && (#[trigger] order.unref()[j]).0 == k by {
        let j = choose|j: int| 0 <= j < order.len() && order[j] == (&k, &connections@[k]);
        assert(order.unref()[j].0 == k);
    }
}

/// Each target is a connection of the map with its sink, and no connection is listed twice.
pub open spec fn targets_sound<S>(
    targets: Seq<(ConnectionId, S)>,
    connections: Map<usize, S>,
) -> bool {
    &&& forall|i: int|
        0 <= i < targets.len() ==> connections.contains_key((#[trigger] targets[i]).0.0)
            && connections[targets[i].0.0] == targets[i].1
    &&& forall|i: int, j: int|
        0 <= i < j < targets.len() ==> (#[trigger] targets[i]).0 != (#[trigger] targets[j]).0
}

/// The connection is listed among the targets.
pub open spec fn targeted<S>(targets: Seq<(ConnectionId, S)>, id: usize) -> bool {
    exists|i: int| 0 <= i < targets.len() && (#[trigger] targets[i]).0.0 == id
}

/// The targets are the connections of the map, each listed once with its sink.
pub open spec fn targets_all<S>(
    targets: Seq<(ConnectionId, S)>,
    connections: Map<usize, S>,
) -> bool {
    &&& targets_sound(targets, connections)
    &&& forall|id: usize| #[trigger] connections.contains_key(id) ==> targeted(targets, id)
}

/// The targets are the connections of the map that the filter lets through, each listed once with
/// its sink.
pub open spec fn targets_matching<S, P: Fn(ConnectionId) -> bool>(
    targets: Seq<(ConnectionId, S)>,
    connections: Map<usize, S>,
    filter: P,
) -> bool {
    &&& targets_sound(targets, connections)
    &&& forall|i: int|
        0 <= i < targets.len() ==> filter.ensures(((#[trigger] targets[i]).0,), true)
    &&& forall|id: usize| #[trigger]
        connections.contains_key(id) ==> targeted(targets, id) || filter.ensures(
            (ConnectionId(id),),
            false,
        )
}

/// What the outcome of sending a notification means.
pub open spec fn delivery(sent: bool) -> Result<(), NotificationError> {
    if sent {
        Ok(())
    } else {
        Err(NotificationError::ConnectionClosed)
    }
}

/// What the outcome of sending a notification through a sink means: a sink that does not take it
/// belongs to a closed connection.
pub fn delivered(sent: bool) -> (r: Result<(), NotificationError>)
    ensures
        r == delivery(sent),
{
    if sent {
        Ok(())
    } else {
        Err(NotificationError::ConnectionClosed)
    }
}

/// A notification on its way to a list of connections.
pub struct MultiSend<'a, S> {
    manager: &'a ConnectionManager<S>,
    conn_ids: &'a [ConnectionId],
    results: Vec<Result<(), NotificationError>>,
}

/// What a [`MultiSend`] holds: the active connections, the connections that are to be reached, in
/// order, and the results for the first of them.
#[verifier::ext_equal]
pub struct MultiSendView<S> {
    pub connections: Map<usize, S>,
    pub conn_ids: Seq<ConnectionId>,
    pub results: Seq<Result<(), NotificationError>>,
}

impl<'a, S> View for MultiSend<'a, S> {
    type V = MultiSendView<S>;

    closed spec fn view(&self) -> MultiSendView<S> {
        MultiSendView {
            connections: self.manager@,
            conn_ids: self.conn_ids@,
            results: self.results@,
        }
    }
}

impl<S> MultiSendView<S> {
    /// There is a result for each connection.
    pub open spec fn done(self) -> bool {
        self.results.len() == self.conn_ids.len()
    }

    /// The next connection without a result is active.
    pub open spec fn waiting(self) -> bool {
        self.results.len() < self.conn_ids.len() && self.connections.contains_key(
            self.conn_ids[self.results.len() as int].0,
        )
    }

    /// The sink of the next connection without a result.
    pub open spec fn next_sink(self) -> S {
        self.connections[self.conn_ids[self.results.len() as int].0]
    }

    /// A result that fits the connection: not found exactly if it is not active, else the outcome
    /// of sending.
    pub open spec fn fits(self, i: int) -> bool {
        if self.connections.contains_key(self.conn_ids[i].0) {
            self.results[i] == delivery(true) || self.results[i] == delivery(false)
        } else {
            self.results[i] == Err::<(), _>(
                NotificationError::ConnectionNotFound(self.conn_ids[i]),
            )
        }
    }
}

impl<'a, S> MultiSend<'a, S> {
    /// Each result fits its connection.
    pub open spec fn wf(self) -> bool {
        &&& self@.results.len() <= self@.conn_ids.len()
        &&& forall|i: int| 0 <= i < self@.results.len() ==> #[trigger] self@.fits(i)
    }

    /// The sink of the next active connection; those before it that are not active get their
    /// result. `None` once all have one.
    pub fn next(&mut self) -> (r: Option<&'a S>)
        requires
            old(self).wf(),
        ensures
            final(self).wf(),
            final(self)@.connections == old(self)@.connections,
            final(self)@.conn_ids == old(self)@.conn_ids,
            old(self)@.results.is_prefix_of(final(self)@.results),
            forall|i: int|
                old(self)@.results.len() <= i < final(self)@.results.len()
                    ==> !old(self)@.connections.contains_key(
                    (#[trigger] old(self)@.conn_ids[i]).0,
                ),
            match r {
                Some(sink) => final(self)@.waiting() && *sink == final(self)@.next_sink(),
                None => final(self)@.done(),
            },
    {
        while self.results.len() < self.conn_ids.len()
            invariant
                self.wf(),
                self@.connections == old(self)@.connections,
                self@.conn_ids == old(self)@.conn_ids,
                old(self)@.results.is_prefix_of(self@.results),
                forall|i: int|
                    old(self)@.results.len() <= i < self@.results.len()
                        ==> !old(self)@.connections.contains_key(
                        (#[trigger] old(self)@.conn_ids[i]).0,
                    ),
            decreases self@.conn_ids.len() - self@.results.len(),
        {
            let conn_id = self.conn_ids[self.results.len()];
            match self.manager.connections.get(&conn_id.0) {
                Some(sink) => return Some(sink),
                None => {
                    let ghost before = self@;
                    assert(!self@.connections.contains_key(conn_id.0));
                    self.results.push(Err(NotificationError::ConnectionNotFound(conn_id)));
                    assert forall|i: int| 0 <= i < self@.results.len() implies #[trigger] self@.fits(
                        i,
                    ) by {
                        if i < before.results.len() {
                            assert(before.fits(i));
                        }
                    }
                },
            }
        }
        None
    }

    /// Records whether the sink that was handed out last took the notification.
    pub fn sent(&mut self, sent: bool)
        requires
            old(self).wf(),
            old(self)@.waiting(),
        ensures
            final(self).wf(),
            final(self)@ == (MultiSendView {
                results: old(self)@.results.push(delivery(sent)),
                ..old(self)@
            }),
    {
        self.results.push(delivered(sent));
        assert(forall|i: int|
            0 <= i < old(self)@.results.len() ==> old(self)@.fits(i) ==> self@.fits(i));
    }

    /// The results, in the order of the connections.
    pub fn finish(self) -> (r: Vec<Result<(), NotificationError>>)
        ensures
            r@ == self@.results,
    {
        self.results
    }
}

/// The number of outcomes that are successes.
pub open spec fn successes(outcomes: Seq<bool>) -> nat
    decreases outcomes.len(),
{
    if outcomes.len() == 0 {
        0
    } else {
        successes(outcomes.drop_last()) + if outcomes.last() {
            1nat
        } else {
            0nat
        }
    }
}

/// The targets whose outcome is a failure, in order.
pub open spec fn failures<S>(
    targets: Seq<(ConnectionId, S)>,
    outcomes: Seq<bool>,
) -> Seq<ConnectionId>
    decreases outcomes.len(),
{
    if outcomes.len() == 0 {
        seq![]
    } else if outcomes.last() {
        failures(targets, outcomes.drop_last())
    } else {
        failures(targets, outcomes.drop_last()).push(targets[outcomes.len() - 1].0)
    }
}

/// The connections with the sinks that they refer to.
pub open spec fn sinks<S>(targets: Seq<(ConnectionId, &S)>) -> Seq<(ConnectionId, S)> {
    Seq::new(targets.len(), |i: int| (targets[i].0, *targets[i].1))
}

/// A notification on its way to all connections.
pub struct Broadcast<'a, S> {
    targets: Vec<(ConnectionId, &'a S)>,
    sent_count: usize,
    failed_connections: Vec<ConnectionId>,
    outcomes: Ghost<Seq<bool>>,
}

/// What a [`Broadcast`] holds: the connections that are to be reached with their sinks, and
/// whether the first of them were.
#[verifier::ext_equal]
pub struct BroadcastView<S> {
    pub targets: Seq<(ConnectionId, S)>,
    pub outcomes: Seq<bool>,
}

impl<'a, S> View for Broadcast<'a, S> {
    type V = BroadcastView<S>;

    closed spec fn view(&self) -> BroadcastView<S> {
        BroadcastView { targets: sinks(self.targets@), outcomes: self.outcomes@ }
    }
}

impl<'a, S> Broadcast<'a, S> {
    /// The counts are those of the outcomes so far.
    pub closed spec fn wf(self) -> bool {
        &&& self@.outcomes.len() <= self@.targets.len()
        &&& self.sent_count == successes(self@.outcomes)
        &&& self.failed_connections@ == failures(self@.targets, self@.outcomes)
        &&& self.sent_count + self.failed_connections@.len() == self@.outcomes.len()
    }

    /// No connection has been tried yet.
    fn new(targets: Vec<(ConnectionId, &'a S)>) -> (r: Self)
        ensures
            r.wf(),
            r@ == (BroadcastView { targets: sinks(targets@), outcomes: Seq::<bool>::empty() }),
    {
        Broadcast {
            targets,
            sent_count: 0,
            failed_connections: Vec::new(),
            outcomes: Ghost(Seq::empty()),
        }
    }

    /// Adds a connection to the end of those that are to be reached.
    fn add_target(&mut self, conn_id: ConnectionId, sink: &'a S)
        requires
            old(self).wf(),
        ensures
            final(self).wf(),
            final(self)@ == (BroadcastView {
                targets: old(self)@.targets.push((conn_id, *sink)),
                ..old(self)@
            }),
    {
        proof {
            lemma_failures_push(self@.targets, self@.outcomes, (conn_id, *sink));
        }
        self.targets.push((conn_id, sink));
        assert(self@.targets =~= old(self)@.targets.push((conn_id, *sink)));
    }

    /// The next connection that is to be reached, with its sink.
    pub fn next(&self) -> (r: Option<(ConnectionId, &'a S)>)
        requires
            self.wf(),
        ensures
            match r {
                Some((conn_id, sink)) => self@.outcomes.len() < self@.targets.len() && (
                    conn_id,
                    *sink,
                ) == self@.targets[self@.outcomes.len() as int],
                None => self@.outcomes.len() == self@.targets.len(),
            },
    {
        assert(self@.targets.len() == self.targets.len());
        let position: usize = self.sent_count + self.failed_connections.len();
        if position < self.targets.len() {
            Some(self.targets[position])
        } else {
            None
        }
    }

    /// Records whether the sink of the next connection took the notification.
    pub fn sent(&mut self, sent: bool)
        requires
            old(self).wf(),
            old(self)@.outcomes.len() < old(self)@.targets.len(),
        ensures
            final(self).wf(),
            final(self)@ == (BroadcastView {
                outcomes: old(self)@.outcomes.push(sent),
                ..old(self)@
            }),
    {
        assert(self@.targets.len() == self.targets.len());
        let position: usize = self.sent_count + self.failed_connections.len();
        assert(self@.outcomes.push(sent).drop_last() =~= self@.outcomes);
        if sent {
            self.sent_count = self.sent_count + 1;
        } else {
            self.failed_connections.push(self.targets[position].0);
        }
        proof {
            self.outcomes@ = self.outcomes@.push(sent);
        }
    }

    /// The number of connections that were reached, and those that were not.
    pub fn finish(self) -> (r: (usize, Vec<ConnectionId>))
        requires
            self.wf(),
        ensures
            r.0 == successes(self@.outcomes),
            r.1@ == failures(self@.targets, self@.outcomes),
    {
        (self.sent_count, self.failed_connections)
    }
}

/// The failures are among the first targets.
proof fn lemma_failures_push<S>(
    targets: Seq<(ConnectionId, S)>,
    outcomes: Seq<bool>,
    target: (ConnectionId, S),
)
    requires
        outcomes.len() <= targets.len(),
    ensures
        failures(targets.push(target), outcomes) == failures(targets, outcomes),
    decreases outcomes.len(),
{
    if outcomes.len() > 0 {
        lemma_failures_push(targets, outcomes.drop_last(), target);
    }
}

/// A notification on its way to the connections that match a filter.
pub struct FilteredBroadcast<'a, S, P> {
    order: Vec<(ConnectionId, &'a S)>,
    asked: usize,
    filter: P,
    reached: Broadcast<'a, S>,
    connections: Ghost<Map<usize, S>>,
}

/// What a [`FilteredBroadcast`] holds: the active connections, in the order in which the filter is
/// asked about them, about how many it was asked, those that it let through, and whether the first
/// of these were reached.
#[verifier::ext_equal]
pub struct FilteredBroadcastView<S> {
    pub connections: Map<usize, S>,
    pub order: Seq<(ConnectionId, S)>,
    pub asked: nat,
    pub targets: Seq<(ConnectionId, S)>,
    pub outcomes: Seq<bool>,
}

impl<'a, S, P> View for FilteredBroadcast<'a, S, P> {
    type V = FilteredBroadcastView<S>;

    closed spec fn view(&self) -> FilteredBroadcastView<S> {
        FilteredBroadcastView {
            connections: self.connections@,
            order: sinks(self.order@),
            asked: self.asked as nat,
            targets: self.reached@.targets,
            outcomes: self.reached@.outcomes,
        }
    }
}

impl<S> FilteredBroadcastView<S> {
    /// The connection is one of those that the filter was asked about.
    pub open spec fn was_asked(self, id: ConnectionId) -> bool {
        exists|j: int| 0 <= j < self.asked && (#[trigger] self.order[j]).0 == id
    }

    /// The filter was asked about the first connections in turn, and the targets are those of them
    /// that it let through.
    pub open spec fn filtered_by<P: Fn(ConnectionId) -> bool>(self, filter: P) -> bool {
        &&& self.asked <= self.order.len()
        &&& targets_all(self.order, self.connections)
        &&& targets_sound(self.targets, self.connections)
        &&& forall|i: int|
            0 <= i < self.targets.len() ==> {
                &&& filter.ensures(((#[trigger] self.targets[i]).0,), true)
                &&& self.was_asked(self.targets[i].0)
            }
        &&& forall|j: int|
            0 <= j < self.asked ==> targeted(self.targets, (#[trigger] self.order[j]).0.0)
                || filter.ensures((self.order[j].0,), false)
    }
}

impl<'a, S, P: Fn(ConnectionId) -> bool> FilteredBroadcast<'a, S, P> {
    /// The filter.
    pub closed spec fn filter(self) -> P {
        self.filter
    }

    /// The targets so far are those that the filter let through, and at most the last of them is
    /// without an outcome.
    pub closed spec fn wf(self) -> bool {
        &&& forall|id: ConnectionId| #[trigger] self.filter.requires((id,))
        &&& self.reached.wf()
        &&& self@.outcomes.len() <= self@.targets.len() <= self@.outcomes.len() + 1
        &&& self@.filtered_by(self.filter())
    }

    /// The next connection that the filter lets through, with its sink. It is asked about that
    /// connection and those before it that it does not let through, and about no other.
    pub fn next(&mut self) -> (r: Option<(ConnectionId, &'a S)>)
        requires
            old(self).wf(),
            old(self)@.outcomes.len() == old(self)@.targets.len(),
        ensures
            final(self).wf(),
            final(self).filter() == old(self).filter(),
            final(self)@.connections == old(self)@.connections,
            final(self)@.order == old(self)@.order,
            final(self)@.outcomes == old(self)@.outcomes,
            match r {
                Some((conn_id, sink)) => {
                    &&& old(self)@.asked < final(self)@.asked <= old(self)@.order.len()
                    &&& old(self)@.order[final(self)@.asked - 1] == (conn_id, *sink)
                    &&& final(self)@.targets == old(self)@.targets.push((conn_id, *sink))
                    &&& final(self).filter().ensures((conn_id,), true)
                    &&& forall|j: int|
                        old(self)@.asked <= j < final(self)@.asked - 1
                            ==> final(self).filter().ensures(
                            ((#[trigger] old(self)@.order[j]).0,),
                            false,
                        )
                },
                None => {
                    &&& final(self)@.asked == old(self)@.order.len()
                    &&& final(self)@.targets == old(self)@.targets
                    &&& forall|j: int|
                        old(self)@.asked <= j < final(self)@.asked
                            ==> final(self).filter().ensures(
                            ((#[trigger] old(self)@.order[j]).0,),
                            false,
                        )
                    &&& targets_matching(
                        final(self)@.targets,
                        final(self)@.connections,
                        final(self).filter(),
                    )
                },
            },
    {
        while self.asked < self.order.len()
            invariant
                self.wf(),
                self.filter == old(self).filter,
                self@.connections == old(self)@.connections,
                self@.order == old(self)@.order,
                self@.outcomes == old(self)@.outcomes,
                self@.targets == old(self)@.targets,
                self@.outcomes.len() == self@.targets.len(),
                old(self)@.asked <= self@.asked,
                forall|j: int|
                    old(self)@.asked <= j < self@.asked ==> self.filter().ensures(
                        ((#[trigger] old(self)@.order[j]).0,),
                        false,
                    ),
            decreases self.order.len() - self.asked,
        {
            let ghost before = self@;
            let ghost turn = self.asked as int;
            let (conn_id, sink) = self.order[self.asked];
            assert(before.order[turn] == (conn_id, *sink));
            self.asked = self.asked + 1;
            if (self.filter)(conn_id) {
                self.reached.add_target(conn_id, sink);
                proof {
                    lemma_let_through(before, self@, self.filter());
                }
                return Some((conn_id, sink));
            }
            proof {
                assert(self@.targets == before.targets);
                assert forall|i: int| 0 <= i < self@.targets.len() implies {
                    &&& self.filter().ensures(((#[trigger] self@.targets[i]).0,), true)
                    &&& self@.was_asked(self@.targets[i].0)
                } by {
                    assert(before.was_asked(before.targets[i].0));
                    lemma_was_asked(before, self@, before.targets[i].0);
                }
            }
        }
        proof {
            assert forall|id: usize| #[trigger] self@.connections.contains_key(id) implies targeted(
                self@.targets,
                id,
            ) || self.filter().ensures((ConnectionId(id),), false) by {
                assert(targeted(self@.order, id));
                let j = choose|j: int|
                    0 <= j < self@.order.len() && (#[trigger] self@.order[j]).0.0 == id;
                assert(self@.order[j].0 == ConnectionId(id));
            }
        }
        None
    }

    /// Records whether the sink of the connection that was handed out last took the notification.
    pub fn sent(&mut self, sent: bool)
        requires
            old(self).wf(),
            old(self)@.outcomes.len() < old(self)@.targets.len(),
        ensures
            final(self).wf(),
            final(self).filter() == old(self).filter(),
            final(self)@ == (FilteredBroadcastView {
                outcomes: old(self)@.outcomes.push(sent),
                ..old(self)@
            }),
    {
        self.reached.sent(sent);
        assert forall|i: int| 0 <= i < self@.targets.len() implies {
            &&& self.filter().ensures(((#[trigger] self@.targets[i]).0,), true)
            &&& self@.was_asked(self@.targets[i].0)
        } by {
            assert(old(self)@.was_asked(old(self)@.targets[i].0));
            lemma_was_asked(old(self)@, self@, self@.targets[i].0);
        }
    }

    /// The number of connections that were reached, and those that were not.
    pub fn finish(self) -> (r: (usize, Vec<ConnectionId>))
        requires
            self.wf(),
        ensures
            r.0 == successes(self@.outcomes),
            r.1@ == failures(self@.targets, self@.outcomes),
    {
        self.reached.finish()
    }
}

/// Whoever was asked about stays so.
proof fn lemma_was_asked<S>(
    before: FilteredBroadcastView<S>,
    after: FilteredBroadcastView<S>,
    id: ConnectionId,
)
    requires
        before.was_asked(id),
        after.order == before.order,
        after.asked >= before.asked,
    ensures
        after.was_asked(id),
{
    let j = choose|j: int| 0 <= j < before.asked && (#[trigger] before.order[j]).0 == id;
    assert(after.order[j].0 == id);
}

/// The broadcast stays what the filter makes of it when the next connection is let through.
proof fn lemma_let_through<S, P: Fn(ConnectionId) -> bool>(
    before: FilteredBroadcastView<S>,
    after: FilteredBroadcastView<S>,
    filter: P,
)
    requires
        before.filtered_by(filter),
        before.asked < before.order.len(),
        filter.ensures((before.order[before.asked as int].0,), true),
        after == (FilteredBroadcastView {
            asked: before.asked + 1,
            targets: before.targets.push(before.order[before.asked as int]),
            ..before
        }),
    ensures
        after.filtered_by(filter),
{
    let last = before.targets.len() as int;
    let turn = before.asked as int;
    assert(after.targets[last] == before.order[turn]);
    assert(after.order[turn].0 == after.targets[last].0);
    assert forall|i: int| 0 <= i < after.targets.len() implies {
        &&& filter.ensures(((#[trigger] after.targets[i]).0,), true)
        &&& after.was_asked(after.targets[i].0)
    } by {
        if i < last {
            assert(after.targets[i] == before.targets[i]);
            assert(before.was_asked(before.targets[i].0));
            lemma_was_asked(before, after, before.targets[i].0);
        }
    }
    assert forall|i: int, j: int| 0 <= i < j < after.targets.len() implies (
    #[trigger] after.targets[i]).0 != (#[trigger] after.targets[j]).0 by {
        if j == last {
            assert(before.was_asked(before.targets[i].0));
            let k = choose|k: int|
                0 <= k < before.asked && (#[trigger] before.order[k]).0 == before.targets[i].0;
            assert(before.order[k].0 != before.order[turn].0);
        }
    }
    assert forall|j: int| 0 <= j < after.asked implies targeted(
        after.targets,
        (#[trigger] after.order[j]).0.0,
    ) || filter.ensures((after.order[j].0,), false) by {
        if j < turn && targeted(before.targets, before.order[j].0.0) {
            let i = choose|i: int|
                0 <= i < before.targets.len() && (#[trigger] before.targets[i]).0.0
                    == before.order[j].0.0;
            assert(after.targets[i].0.0 == after.order[j].0.0);
        }
    }
}

} // verus!
