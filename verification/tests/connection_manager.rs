use jsonrpsee_server::connection_manager::{
    delivered, ConnectionId, ConnectionManager, Notification, NotificationError,
    SharedConnectionManager,
};
use std::cell::{Cell, RefCell};

fn number(params: &u32) -> Result<String, serde_json::Error> {
    serde_json::to_string(params)
}

fn no_json(_params: &u32) -> Result<String, serde_json::Error> {
    Err(serde_json::from_str::<u32>("x").unwrap_err())
}

fn manager_of(ids: &[usize]) -> ConnectionManager<usize> {
    let mut manager = ConnectionManager::new();
    for id in ids {
        manager.register_connection(ConnectionId(*id), id * 10);
    }
    manager
}

#[test]
fn new_manager_is_empty() {
    let manager: ConnectionManager<u8> = ConnectionManager::default();
    assert_eq!(manager.connection_count(), 0);
    assert!(!manager.is_connection_active(ConnectionId(0)));
    assert!(manager.get_stats().active_connections.is_empty());
}

#[test]
fn register_and_unregister() {
    let mut manager = manager_of(&[1, 2]);
    assert!(manager.is_connection_active(ConnectionId(1)));
    assert!(!manager.is_connection_active(ConnectionId(3)));
    assert_eq!(manager.unregister_connection(ConnectionId(1)), Some(10));
    assert_eq!(manager.unregister_connection(ConnectionId(1)), None);
    assert!(!manager.is_connection_active(ConnectionId(1)));
    assert!(manager.is_connection_active(ConnectionId(2)));
    assert_eq!(manager.connection_count(), 1);
}

#[test]
fn registering_again_replaces_the_sink() {
    let mut manager = manager_of(&[1]);
    manager.register_connection(ConnectionId(1), 99);
    assert_eq!(manager.connection_count(), 1);
    assert_eq!(manager.unregister_connection(ConnectionId(1)), Some(99));
}

#[test]
fn stats_list_each_connection_once() {
    let stats = manager_of(&[3, 1, 2, 1]).get_stats();
    assert_eq!(stats.total_connections, 3);
    let mut listed: Vec<usize> = stats.active_connections.iter().map(|id| id.0).collect();
    listed.sort();
    assert_eq!(listed, vec![1, 2, 3]);
}

#[test]
fn notification_to_one_connection() {
    let manager = manager_of(&[1]);
    let (sink, text) = manager
        .send_notification(ConnectionId(1), Notification::new("tick", 5), &number)
        .unwrap();
    assert_eq!(*sink, 10);
    assert_eq!(text, "{\"jsonrpc\":\"2.0\",\"method\":\"tick\",\"params\":5}");
}

#[test]
fn notification_method_is_escaped() {
    let manager = manager_of(&[1]);
    let (_, text) = manager
        .send_notification(ConnectionId(1), Notification::new("a\"b\n", 5), &number)
        .unwrap();
    assert_eq!(text, "{\"jsonrpc\":\"2.0\",\"method\":\"a\\\"b\\n\",\"params\":5}");
}

#[test]
fn notification_to_an_unknown_connection() {
    let manager = manager_of(&[1]);
    let err = manager
        .send_notification(ConnectionId(2), Notification::new("tick", 5), &no_json)
        .unwrap_err();
    assert!(matches!(err, NotificationError::ConnectionNotFound(ConnectionId(2))));
    assert_eq!(err.message(), "Connection ConnectionId(2) not found");
}

#[test]
fn notification_that_cannot_be_serialized() {
    let manager = manager_of(&[1]);
    let err = manager
        .send_notification(ConnectionId(1), Notification::new("tick", 5), &no_json)
        .unwrap_err();
    assert!(matches!(err, NotificationError::SerializationError(_)));
    assert_eq!(err.message(), "Serialization error: expected value at line 1 column 1");
    assert!(manager.send_to_connections(&[], Notification::new("tick", 5), &no_json).is_err());
    assert!(manager.broadcast_notification(Notification::new("tick", 5), &no_json).is_err());
}

#[test]
fn error_messages() {
    assert_eq!(NotificationError::ConnectionClosed.message(), "Connection closed");
    assert_eq!(NotificationError::SendError.message(), "Send error");
    let largest = NotificationError::ConnectionNotFound(ConnectionId(1234567890));
    assert_eq!(largest.message(), "Connection ConnectionId(1234567890) not found");
}

#[test]
fn outcome_of_sending() {
    assert!(delivered(true).is_ok());
    assert!(matches!(delivered(false), Err(NotificationError::ConnectionClosed)));
}

#[test]
fn notification_to_several_connections() {
    let manager = manager_of(&[1, 2]);
    let conn_ids = [ConnectionId(7), ConnectionId(2), ConnectionId(1), ConnectionId(2)];
    let (mut sending, text) =
        manager.send_to_connections(&conn_ids, Notification::new("tick", 5), &number).unwrap();
    assert_eq!(text, "{\"jsonrpc\":\"2.0\",\"method\":\"tick\",\"params\":5}");
    let mut sinks = Vec::new();
    while let Some(sink) = sending.next() {
        sinks.push(*sink);
        sending.sent(*sink != 10);
    }
    assert_eq!(sinks, vec![20, 10, 20]);
    let results = sending.finish();
    assert_eq!(results.len(), 4);
    assert!(matches!(results[0], Err(NotificationError::ConnectionNotFound(ConnectionId(7)))));
    assert!(results[1].is_ok());
    assert!(matches!(results[2], Err(NotificationError::ConnectionClosed)));
    assert!(results[3].is_ok());
}

#[test]
fn broadcast_counts_and_cleans_up() {
    let mut manager = manager_of(&[1, 2, 3]);
    let (sent_count, failed) = {
        let (mut broadcast, text) =
            manager.broadcast_notification(Notification::new("tick", 5), &number).unwrap();
        assert_eq!(text, "{\"jsonrpc\":\"2.0\",\"method\":\"tick\",\"params\":5}");
        while let Some((conn_id, sink)) = broadcast.next() {
            assert_eq!(*sink, conn_id.0 * 10);
            broadcast.sent(conn_id != ConnectionId(2));
        }
        broadcast.finish()
    };
    assert_eq!(sent_count, 2);
    assert_eq!(failed, vec![ConnectionId(2)]);
    manager.cleanup(&failed);
    assert_eq!(manager.connection_count(), 2);
    assert!(!manager.is_connection_active(ConnectionId(2)));
    assert!(manager.is_connection_active(ConnectionId(1)));
}

#[test]
fn filtered_broadcast() {
    let manager = manager_of(&[1, 2, 3, 4]);
    let even = |id: ConnectionId| id.0 % 2 == 0;
    let (mut broadcast, _) =
        manager.broadcast_filtered(Notification::new("tick", 5), &number, even).unwrap();
    let mut reached = Vec::new();
    while let Some((conn_id, _)) = broadcast.next() {
        reached.push(conn_id.0);
        broadcast.sent(true);
    }
    reached.sort();
    assert_eq!(reached, vec![2, 4]);
    assert_eq!(broadcast.finish().0, 2);
}

#[test]
fn filter_that_lets_no_one_through() {
    let manager = manager_of(&[1, 2]);
    let nobody = |_id: ConnectionId| false;
    let (mut broadcast, _) =
        manager.broadcast_filtered(Notification::new("tick", 5), &number, nobody).unwrap();
    assert!(broadcast.next().is_none());
    let (sent_count, failed) = broadcast.finish();
    assert_eq!(sent_count, 0);
    assert!(failed.is_empty());
}

#[test]
fn filter_that_lets_everyone_through() {
    let manager = manager_of(&[1, 2]);
    let everyone = |_id: ConnectionId| true;
    let (mut broadcast, _) =
        manager.broadcast_filtered(Notification::new("tick", 5), &number, everyone).unwrap();
    while broadcast.next().is_some() {
        broadcast.sent(true);
    }
    assert_eq!(broadcast.finish().0, 2);
}

#[test]
fn connection_id_of_a_number() {
    assert_eq!(ConnectionId::from(17u32), ConnectionId(17));
}

#[test]
fn control_characters_of_the_method_are_escaped() {
    let manager = manager_of(&[1]);
    let method = "\u{8}\t\n\u{c}\r\\\u{0}\u{1f}\u{7f}\u{e9}/";
    let (_, text) = manager
        .send_notification(ConnectionId(1), Notification::new(method, 5), &number)
        .unwrap();
    assert_eq!(
        text,
        "{\"jsonrpc\":\"2.0\",\"method\":\"\\b\\t\\n\\f\\r\\\\\\u0000\\u001f\u{7f}\u{e9}/\",\"params\":5}"
    );
}

#[test]
fn filter_and_its_opposite_add_up() {
    let manager = manager_of(&[1, 2, 3, 4, 5]);
    let even = |id: ConnectionId| id.0 % 2 == 0;
    let odd = |id: ConnectionId| id.0 % 2 != 0;
    let (mut broadcast, _) =
        manager.broadcast_filtered(Notification::new("tick", 5), &number, even).unwrap();
    while broadcast.next().is_some() {
        broadcast.sent(true);
    }
    let (mut opposite, _) =
        manager.broadcast_filtered(Notification::new("tick", 5), &number, odd).unwrap();
    while opposite.next().is_some() {
        opposite.sent(true);
    }
    let (even_count, odd_count) = (broadcast.finish().0, opposite.finish().0);
    assert_eq!((even_count, odd_count), (2, 3));
    assert_eq!(even_count + odd_count, manager.connection_count());
}

#[test]
fn last_call_decides_whether_a_connection_is_active() {
    let mut manager = ConnectionManager::new();
    manager.unregister_connection(ConnectionId(1));
    manager.register_connection(ConnectionId(1), 1);
    manager.register_connection(ConnectionId(2), 2);
    manager.unregister_connection(ConnectionId(2));
    manager.register_connection(ConnectionId(1), 3);
    assert!(manager.is_connection_active(ConnectionId(1)));
    assert!(!manager.is_connection_active(ConnectionId(2)));
    assert!(!manager.is_connection_active(ConnectionId(3)));
    assert_eq!(manager.unregister_connection(ConnectionId(1)), Some(3));
}

#[test]
fn filter_is_asked_when_the_turn_comes() {
    let manager = manager_of(&[1, 2, 3, 4, 5]);
    let sent = Cell::new(0);
    let first_two = |_id: ConnectionId| sent.get() < 2;
    let (mut broadcast, _) =
        manager.broadcast_filtered(Notification::new("tick", 5), &number, first_two).unwrap();
    while broadcast.next().is_some() {
        sent.set(sent.get() + 1);
        broadcast.sent(true);
    }
    assert_eq!(broadcast.finish().0, 2);
}

#[test]
fn filter_is_asked_once_about_each_connection() {
    let manager = manager_of(&[1, 2, 3]);
    let asked = RefCell::new(Vec::new());
    let none_of_two = |id: ConnectionId| {
        asked.borrow_mut().push(id.0);
        id.0 != 2
    };
    let (mut broadcast, _) =
        manager.broadcast_filtered(Notification::new("tick", 5), &number, none_of_two).unwrap();
    assert!(asked.borrow().is_empty());
    while let Some((conn_id, _)) = broadcast.next() {
        assert_eq!(asked.borrow().last(), Some(&conn_id.0));
        broadcast.sent(conn_id.0 != 3);
    }
    let (sent_count, failed) = broadcast.finish();
    assert_eq!(sent_count, 1);
    assert_eq!(failed, vec![ConnectionId(3)]);
    let mut asked = asked.into_inner();
    asked.sort();
    assert_eq!(asked, vec![1, 2, 3]);
}

#[test]
fn clones_share_one_registry() {
    let manager: SharedConnectionManager<u8> = SharedConnectionManager::default();
    let other = manager.clone();
    assert_eq!(other.registry().try_read().unwrap().connection_count(), 0);
    manager.registry().try_write().unwrap().register_connection(ConnectionId(1), 1);
    other.registry().try_write().unwrap().register_connection(ConnectionId(2), 2);
    assert!(other.registry().try_read().unwrap().is_connection_active(ConnectionId(1)));
    assert!(manager.registry().try_read().unwrap().is_connection_active(ConnectionId(2)));
    other.registry().try_write().unwrap().unregister_connection(ConnectionId(1));
    assert!(!manager.registry().try_read().unwrap().is_connection_active(ConnectionId(1)));
}

#[test]
fn printed_manager() {
    assert_eq!(
        format!("{:?}", manager_of(&[1])),
        "ConnectionManager { connections: {1: 10} }"
    );
}
