use ecoclient::geometry::Point;
use ecoclient::network::{react, Received};
use ecoclient::queue::OutboundQueue;
use ecoclient::render::{Colour, Renderable};
use ecoclient::snapshot::{Data, SnapshotStore};

fn entity(x: i32, y: i32, order: i32) -> (Point, Renderable) {
    let white = Colour { r: 255, g: 255, b: 255 };
    let black = Colour { r: 0, g: 0, b: 0 };
    (Point { x, y }, Renderable { glyph: 1, fg: white, bg: black, render_order: order })
}

fn snapshot(uid: &str, payload: &str, n: i32) -> Data {
    let mut map = Vec::new();
    let mut characters = Vec::new();
    for i in 0..n {
        map.push(entity(i, n, i));
        characters.push(Point { x: n, y: i });
    }
    Data::new(characters, uid.to_string(), map, payload.to_string())
}

fn same(a: &Data, b: &Data) -> bool {
    a.characters() == b.characters()
        && a.my_uid() == b.my_uid()
        && a.map() == b.map()
        && a.info_string() == b.info_string()
}

#[test]
fn new_store_holds_the_initial_snapshot() {
    let store = SnapshotStore::new();
    let got = store.read();
    assert!(got.characters().is_empty());
    assert_eq!(got.my_uid(), "");
    assert!(got.map().is_empty());
    assert_eq!(got.info_string(), "");
    assert!(!got.has_identity());
    assert!(same(&got, &Data::default()));
}

#[test]
fn read_returns_what_was_written() {
    let mut store = SnapshotStore::new();
    store.write(snapshot("P1", "{\"hp\":3}", 3));
    let got = store.read();
    assert_eq!(got.my_uid(), "P1");
    assert_eq!(got.info_string(), "{\"hp\":3}");
    assert_eq!(got.map().len(), 3);
    assert_eq!(got.map()[2], entity(2, 3, 2));
    assert_eq!(got.characters(), &vec![Point { x: 3, y: 0 }, Point { x: 3, y: 1 }, Point { x: 3, y: 2 }]);
    assert!(got.has_identity());
}

#[test]
fn last_write_wins() {
    let mut store = SnapshotStore::new();
    store.write(snapshot("P1", "one", 1));
    store.write(snapshot("P2", "two", 2));
    let got = store.read();
    assert!(same(&got, &snapshot("P2", "two", 2)));
}

#[test]
fn every_read_is_the_default_or_one_whole_write() {
    let written = [snapshot("A", "a", 1), snapshot("B", "bb", 2), snapshot("C", "ccc", 3)];
    let mut store = SnapshotStore::new();
    let mut reads = vec![store.read()];
    for w in written.iter() {
        store.write(w.clone());
        reads.push(store.read());
        reads.push(store.read());
    }
    for r in reads.iter() {
        assert!(same(r, &Data::default()) || written.iter().any(|w| same(r, w)));
    }
    assert!(same(&reads[0], &Data::default()));
    assert!(same(&reads[1], &written[0]));
    assert!(same(&reads[6], &written[2]));
}

#[test]
fn a_read_is_a_copy() {
    let mut store = SnapshotStore::new();
    store.write(snapshot("P1", "one", 1));
    let before = store.read();
    store.write(snapshot("P2", "two", 2));
    assert_eq!(before.my_uid(), "P1");
    assert_eq!(before.map().len(), 1);
    assert_eq!(store.read().my_uid(), "P2");
}

#[test]
fn clone_copies_every_part() {
    let d = snapshot("P9", "payload", 4);
    assert!(same(&d, &d.clone()));
}

#[test]
fn invalid_message_keeps_the_stored_snapshot() {
    let mut store = SnapshotStore::new();
    assert!(store.receive(Some(snapshot("P1", "status", 2))));
    assert!(!store.receive(None));
    let got = store.read();
    assert_eq!(got.my_uid(), "P1");
    assert!(same(&got, &snapshot("P1", "status", 2)));
}

#[test]
fn invalid_message_on_a_new_store_keeps_the_default() {
    let mut store = SnapshotStore::new();
    assert!(!store.receive(None));
    assert!(same(&store.read(), &Data::default()));
}

#[test]
fn drain_returns_the_commands_in_order() {
    let mut queue = OutboundQueue::new();
    assert!(queue.is_empty());
    queue.enqueue("register bob".to_string());
    queue.enqueue("move 1 0".to_string());
    queue.enqueue("move 0 -1".to_string());
    assert_eq!(queue.len(), 3);
    assert!(!queue.is_empty());
    let batch = queue.drain_all();
    assert_eq!(batch, vec!["register bob".to_string(), "move 1 0".to_string(), "move 0 -1".to_string()]);
    assert!(queue.is_empty());
    assert_eq!(queue.len(), 0);
}

#[test]
fn second_drain_is_empty() {
    let mut queue = OutboundQueue::new();
    queue.enqueue("a".to_string());
    assert_eq!(queue.drain_all(), vec!["a".to_string()]);
    assert_eq!(queue.drain_all(), Vec::<String>::new());
}

#[test]
fn drain_of_an_empty_queue_is_empty() {
    let mut queue = OutboundQueue::new();
    assert_eq!(queue.drain_all(), Vec::<String>::new());
    assert!(queue.is_empty());
}

#[test]
fn enqueue_after_a_drain_starts_a_new_batch() {
    let mut queue = OutboundQueue::new();
    queue.enqueue("a".to_string());
    queue.enqueue("a".to_string());
    assert_eq!(queue.drain_all().len(), 2);
    queue.enqueue("b".to_string());
    assert_eq!(queue.drain_all(), vec!["b".to_string()]);
}

#[test]
fn truncated_message_keeps_the_identity() {
    let mut store = SnapshotStore::new();
    let first = react(&mut store, Received::Message(Some(snapshot("P1", "status", 2))));
    assert!(first.running);
    assert_eq!(first.diagnostic, None);
    let second = react(&mut store, Received::Message(None));
    assert!(second.running);
    assert_eq!(second.diagnostic, Some("unable to decode message".to_string()));
    assert_eq!(store.read().my_uid(), "P1");
    assert!(same(&store.read(), &snapshot("P1", "status", 2)));
}

#[test]
fn lost_connection_stops_the_task_and_keeps_the_snapshot() {
    let mut store = SnapshotStore::new();
    react(&mut store, Received::Message(Some(snapshot("P1", "status", 2))));
    let idle = react(&mut store, Received::Idle);
    assert!(idle.running);
    assert_eq!(idle.diagnostic, None);
    let closed = react(&mut store, Received::ConnectionClosed);
    assert!(!closed.running);
    assert_eq!(closed.diagnostic, Some("connection closed".to_string()));
    assert!(same(&store.read(), &snapshot("P1", "status", 2)));
}
