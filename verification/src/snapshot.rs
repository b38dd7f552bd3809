//! The latest world snapshot, and the store that the network task writes and
//! the render/input task reads.

use vstd::prelude::*;
use crate::geometry::Point;
use crate::render::Renderable;

verus! {

/// What a snapshot holds, as plain mathematical values.
pub struct Snapshot {
    /// Screen cells of the character markers.
    pub characters: Seq<Point>,
    /// Identity of the local player's entity; empty while none is assigned.
    pub local_identity: Seq<char>,
    /// The visible entities in their order of arrival.
    pub entities: Seq<(Point, Renderable)>,
    /// The serialized status of the local player, not decoded.
    pub status_payload: Seq<char>,
}

/// The snapshot that a store holds before the first update: nothing visible,
/// no identity, an empty payload.
pub open spec fn initial_snapshot() -> Snapshot {
    Snapshot {
        characters: Seq::empty(),
        local_identity: Seq::empty(),
        entities: Seq::empty(),
        status_payload: Seq::empty(),
    }
}

/// One world snapshot as the server sent it.
#[derive(Debug)]
pub struct Data {
    characters: Vec<Point>,
    my_uid: String,
    map: Vec<(Point, Renderable)>,
    info_string: String,
}

impl View for Data {
    type V = Snapshot;

    closed spec fn view(&self) -> Snapshot {
        Snapshot {
            characters: self.characters@,
            local_identity: self.my_uid@,
            entities: self.map@,
            status_payload: self.info_string@,
        }
    }
}

fn copy_points(points: &Vec<Point>) -> (copy: Vec<Point>)
    ensures
        copy@ == points@,
{
    let mut copy: Vec<Point> = Vec::new();
    let mut i: usize = 0;
    while i < points.len()
        invariant
            i <= points.len(),
            copy@ == points@.take(i as int),
        decreases points.len() - i,
    {
        copy.push(points[i]);
        proof {
            assert(points@.take(i + 1) =~= points@.take(i as int).push(points@[i as int]));
        }
        i += 1;
    }
    proof {
        assert(points@.take(i as int) =~= points@);
    }
    copy
}

pub(crate) fn copy_entities(entities: &Vec<(Point, Renderable)>) -> (copy: Vec<(Point, Renderable)>)
    ensures
        copy@ == entities@,
{
    let mut copy: Vec<(Point, Renderable)> = Vec::new();
    let mut i: usize = 0;
    while i < entities.len()
        invariant
            i <= entities.len(),
            copy@ == entities@.take(i as int),
        decreases entities.len() - i,
    {
        copy.push(entities[i]);
        proof {
            assert(entities@.take(i + 1) =~= entities@.take(i as int).push(entities@[i as int]));
        }
        i += 1;
    }
    proof {
        assert(entities@.take(i as int) =~= entities@);
    }
    copy
}

impl Data {
    /// A snapshot of the given parts.
    pub fn new(
        characters: Vec<Point>,
        my_uid: String,
        map: Vec<(Point, Renderable)>,
        info_string: String,
    ) -> (data: Data)
        ensures
            data@ == (Snapshot {
                characters: characters@,
                local_identity: my_uid@,
                entities: map@,
                status_payload: info_string@,
            }),
    {
        Data { characters, my_uid, map, info_string }
    }

    /// Screen cells of the character markers.
    pub fn characters(&self) -> (characters: &Vec<Point>)
        ensures
            characters@ == self@.characters,
    {
        &self.characters
    }

    /// Identity of the local player's entity; empty while none is assigned.
    pub fn my_uid(&self) -> (uid: &String)
        ensures
            uid@ == self@.local_identity,
    {
        &self.my_uid
    }

    /// The visible entities in their order of arrival.
    pub fn map(&self) -> (map: &Vec<(Point, Renderable)>)
        ensures
            map@ == self@.entities,
    {
        &self.map
    }

    /// The serialized status of the local player.
    pub fn info_string(&self) -> (payload: &String)
        ensures
            payload@ == self@.status_payload,
    {
        &self.info_string
    }

    /// Whether the server has assigned the local player an identity.
    pub fn has_identity(&self) -> (assigned: bool)
        ensures
            assigned == (self@.local_identity.len() > 0),
    {
        self.my_uid.as_str().unicode_len() > 0
    }
}

impl Clone for Data {
    /// A copy of every part.
    fn clone(&self) -> (copy: Data)
        ensures
            copy@ == self@,
    {
        Data {
            characters: copy_points(&self.characters),
            my_uid: self.my_uid.clone(),
            map: copy_entities(&self.map),
            info_string: self.info_string.clone(),
        }
    }
}

impl Default for Data {
    /// The snapshot that a store holds before the first update.
    fn default() -> (data: Data)
        ensures
            data@ == initial_snapshot(),
    {
        Data {
            characters: Vec::new(),
            my_uid: String::new(),
            map: Vec::new(),
            info_string: String::new(),
        }
    }
}

/// Holds the latest snapshot. A write replaces the whole snapshot and a read
/// copies the whole snapshot, so that no reader sees parts of two updates.
pub struct SnapshotStore {
    current: Data,
}

impl View for SnapshotStore {
    type V = Snapshot;

    closed spec fn view(&self) -> Snapshot {
        self.current@
    }
}

impl SnapshotStore {
    /// A store that holds the initial snapshot.
    pub fn new() -> (store: SnapshotStore)
        ensures
            store@ == initial_snapshot(),
    {
        SnapshotStore { current: Data::default() }
    }

    /// Replaces the stored snapshot as a whole. The one before is dropped:
    /// no history is kept.
    pub fn write(&mut self, new_snapshot: Data)
        ensures
            final(self)@ == new_snapshot@,
    {
        self.current = new_snapshot;
    }

    /// A copy of the stored snapshot, whole.
    pub fn read(&self) -> (snapshot: Data)
        ensures
            snapshot@ == self@,
    {
        self.current.clone()
    }

    /// Takes in what became of an inbound message: a decoded snapshot is
    /// stored, a message that could not be decoded (`None`) leaves the store
    /// as it is. Returns whether the store took a snapshot.
    pub fn receive(&mut self, inbound: Option<Data>) -> (stored: bool)
        ensures
            stored == inbound.is_some(),
            final(self)@ == (match inbound {
                Some(snapshot) => snapshot@,
                None => old(self)@,
            }),
    {
        match inbound {
            Some(snapshot) => {
                self.write(snapshot);
                true
            },
            None => false,
        }
    }
}

/// One operation on a snapshot store.
pub enum StoreOp {
    /// A write of the given snapshot.
    Write(Snapshot),
    /// A read.
    Read,
}

/// What a store holds after the given operations, starting from a new store.
pub open spec fn stored_after(ops: Seq<StoreOp>) -> Snapshot
    decreases ops.len(),
{
    if ops.len() == 0 {
        initial_snapshot()
    } else {
        match ops.last() {
            StoreOp::Write(snapshot) => snapshot,
            StoreOp::Read => stored_after(ops.drop_last()),
        }
    }
}

/// Whatever writes and reads came before it, a read returns the initial
/// snapshot or a snapshot that one earlier write stored, whole: never parts
/// of two writes.
pub proof fn lemma_read_returns_whole_write(ops: Seq<StoreOp>)
    ensures
        stored_after(ops) == initial_snapshot() || exists|j: int|
            0 <= j < ops.len() && #[trigger] ops[j] == StoreOp::Write(stored_after(ops)),
    decreases ops.len(),
{
    if ops.len() > 0 {
        match ops.last() {
            StoreOp::Write(snapshot) => {
                assert(ops[ops.len() - 1] == StoreOp::Write(stored_after(ops)));
            },
            StoreOp::Read => {
                let rest = ops.drop_last();
                lemma_read_returns_whole_write(rest);
                if stored_after(rest) != initial_snapshot() {
                    let j = choose|j: int|
                        0 <= j < rest.len() && #[trigger] rest[j] == StoreOp::Write(
                            stored_after(rest),
                        );
                    assert(ops[j] == rest[j]);
                }
            },
        }
    }
}

/// A store holds what the last write stored, whatever was written before.
pub proof fn lemma_last_write_wins(ops: Seq<StoreOp>, snapshot: Snapshot)
    ensures
        stored_after(ops.push(StoreOp::Write(snapshot))) == snapshot,
        stored_after(ops.push(StoreOp::Read)) == stored_after(ops),
{
    assert(ops.push(StoreOp::Read).drop_last() =~= ops);
}

} // verus!
