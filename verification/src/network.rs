//! What the network task decides when a receive ends.

use vstd::prelude::*;
use crate::snapshot::{Data, Snapshot, SnapshotStore};

verus! {

/// How a receive on the connection ended.
pub enum Received {
    /// A message arrived; it holds the snapshot decoded from it, or `None`
    /// where the message was truncated or invalid.
    Message(Option<Data>),
    /// Nothing arrived.
    Idle,
    /// The connection is lost.
    ConnectionClosed,
}

/// What the network task does after a receive.
pub struct Reaction {
    /// Whether the task goes on. It stops only when the connection is lost.
    pub running: bool,
    /// The diagnostic to log, if any.
    pub diagnostic: Option<String>,
}

/// The snapshot that the store holds after a receive that ended in
/// `received`, where it held `stored` before.
pub open spec fn stored_next(stored: Snapshot, received: Received) -> Snapshot {
    match received {
        Received::Message(Some(snapshot)) => snapshot@,
        _ => stored,
    }
}

/// The text of the diagnostic for a receive that ended in `received`, if it
/// calls for one.
pub open spec fn receive_diagnostic(received: Received) -> Option<Seq<char>> {
    match received {
        Received::Message(None) => Some("unable to decode message"@),
        Received::ConnectionClosed => Some("connection closed"@),
        _ => None,
    }
}

/// The view of an optional text.
pub open spec fn text_view(text: Option<String>) -> Option<Seq<char>> {
    match text {
        Some(t) => Some(t@),
        None => None,
    }
}

/// Reacts to the end of a receive. A decoded snapshot replaces the stored
/// one. A message that could not be decoded is logged and dropped: the
/// store keeps what it holds and the task goes on. A lost connection is
/// logged and stops the task; the store keeps what it holds.
pub fn react(store: &mut SnapshotStore, received: Received) -> (reaction: Reaction)
    ensures
        final(store)@ == stored_next(old(store)@, received),
        reaction.running == !(received is ConnectionClosed),
        text_view(reaction.diagnostic) == receive_diagnostic(received),
{
    match received {
        Received::Message(inbound) => {
            let stored = store.receive(inbound);
            if stored {
                Reaction { running: true, diagnostic: None }
            } else {
                Reaction {
                    running: true,
                    diagnostic: Some(String::from_str("unable to decode message")),
                }
            }
        },
        Received::Idle => Reaction { running: true, diagnostic: None },
        Received::ConnectionClosed => Reaction {
            running: false,
            diagnostic: Some(String::from_str("connection closed")),
        },
    }
}

/// A receive that brings no decoded snapshot leaves the stored snapshot as
/// it is.
pub proof fn lemma_failed_receive_keeps_snapshot(stored: Snapshot, received: Received)
    requires
        !(received matches Received::Message(Some(_))),
    ensures
        stored_next(stored, received) == stored,
{
}

} // verus!
