//! The commands that wait for transmission, in the order of their arrival.

use vstd::prelude::*;

verus! {

/// The outbound queue: the render/input task appends serialized commands and
/// the network task takes them all out at once.
pub struct OutboundQueue {
    pending: Vec<String>,
}

impl View for OutboundQueue {
    type V = Seq<Seq<char>>;

    /// The queued commands, oldest first.
    closed spec fn view(&self) -> Seq<Seq<char>> {
        texts(self.pending@)
    }
}

/// The texts of a sequence of commands, in the same order.
pub open spec fn texts(commands: Seq<String>) -> Seq<Seq<char>> {
    commands.map_values(|command: String| command@)
}

impl OutboundQueue {
    /// An empty queue.
    pub fn new() -> (queue: OutboundQueue)
        ensures
            queue@ == Seq::<Seq<char>>::empty(),
    {
        let queue = OutboundQueue { pending: Vec::new() };
        assert(texts(queue.pending@) =~= Seq::<Seq<char>>::empty());
        queue
    }

    /// Appends a command at the tail. Nothing queued is dropped or moved.
    pub fn enqueue(&mut self, command: String)
        ensures
            final(self)@ == old(self)@.push(command@),
    {
        self.pending.push(command);
        assert(texts(self.pending@) =~= texts(old(self).pending@).push(command@));
    }

    /// Takes out everything that is queued, oldest first, and leaves the
    /// queue empty. An empty queue gives an empty batch.
    pub fn drain_all(&mut self) -> (batch: Vec<String>)
        ensures
            texts(batch@) == drained(old(self)@).0,
            final(self)@ == drained(old(self)@).1,
    {
        let mut batch: Vec<String> = Vec::new();
        std::mem::swap(&mut batch, &mut self.pending);
        assert(texts(self.pending@) =~= Seq::<Seq<char>>::empty());
        batch
    }

    /// Number of queued commands.
    pub fn len(&self) -> (n: usize)
        ensures
            n == self@.len(),
    {
        self.pending.len()
    }

    /// Whether nothing is queued.
    pub fn is_empty(&self) -> (empty: bool)
        ensures
            empty == (self@.len() == 0),
    {
        self.pending.len() == 0
    }
}

/// The queue after the commands of `commands` were appended to `queue` one
/// by one, first to last.
pub open spec fn after_enqueues(queue: Seq<Seq<char>>, commands: Seq<Seq<char>>) -> Seq<Seq<char>>
    decreases commands.len(),
{
    if commands.len() == 0 {
        queue
    } else {
        after_enqueues(queue, commands.drop_last()).push(commands.last())
    }
}

/// What one drain of `queue` gives: first the batch that comes out, then
/// the queue that is left.
pub open spec fn drained(queue: Seq<Seq<char>>) -> (Seq<Seq<char>>, Seq<Seq<char>>) {
    (queue, Seq::empty())
}

/// Appending one by one is appending the whole sequence.
pub proof fn lemma_enqueues_append(queue: Seq<Seq<char>>, commands: Seq<Seq<char>>)
    ensures
        after_enqueues(queue, commands) == queue + commands,
    decreases commands.len(),
{
    if commands.len() > 0 {
        lemma_enqueues_append(queue, commands.drop_last());
        assert((queue + commands.drop_last()).push(commands.last()) =~= queue + commands);
    } else {
        assert(queue =~= queue + commands);
    }
}

/// Commands appended to an empty queue come out of one drain as they went
/// in, in the same order; a second drain, with nothing appended in between,
/// gives nothing.
pub proof fn lemma_drain_returns_enqueued(commands: Seq<Seq<char>>)
    ensures
        drained(after_enqueues(Seq::empty(), commands)).0 == commands,
        drained(drained(after_enqueues(Seq::empty(), commands)).1).0 == Seq::<Seq<char>>::empty(),
{
    lemma_enqueues_append(Seq::empty(), commands);
    assert(Seq::<Seq<char>>::empty() + commands =~= commands);
}

} // verus!
