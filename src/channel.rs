use std::collections::VecDeque;
use vstd::prelude::*;

use crate::messages::{Command, Event};

verus! {

/// The one error at the boundary between the layers: the peer has torn the
/// channel down. It is not worth retrying; the caller ends its session.
#[derive(Debug, Clone, Copy, PartialEq, Eq, Structural)]
pub enum ChannelError {
    ChannelClosed,
}

/// What a channel does with a message when its queue is full.
#[derive(Debug, Clone, Copy, PartialEq, Eq, Structural)]
pub enum QueuePolicy {
    /// Every message is kept until it is taken.
    Unbounded,
    /// At most this many messages wait; a new one pushes out the oldest.
    DropOldest(usize),
}

/// The newest `cap` elements of `s`, in order (all of `s` if it is shorter).
pub open spec fn newest<T>(s: Seq<T>, cap: nat) -> Seq<T> {
    if s.len() <= cap {
        s
    } else {
        s.subrange(s.len() - cap, s.len() as int)
    }
}

/// The queue after `item` is offered to `pending` under `policy`.
pub open spec fn enqueue<T>(pending: Seq<T>, policy: QueuePolicy, item: T) -> Seq<T> {
    let s = pending.push(item);
    match policy {
        QueuePolicy::Unbounded => s,
        QueuePolicy::DropOldest(cap) => newest(s, cap as nat),
    }
}

/// The queue after each of `items` is offered in turn.
pub open spec fn enqueue_all<T>(pending: Seq<T>, policy: QueuePolicy, items: Seq<T>) -> Seq<T>
    decreases items.len(),
{
    if items.len() == 0 {
        pending
    } else {
        enqueue(enqueue_all(pending, policy, items.drop_last()), policy, items.last())
    }
}

/// Offering messages one by one to an open channel that keeps every message
/// appends them in order: a consumer that drains it afterwards receives what
/// was waiting and then exactly those messages, none lost, repeated or
/// reordered.
pub proof fn lemma_unbounded_keeps_order<T>(pending: Seq<T>, items: Seq<T>)
    ensures
        enqueue_all(pending, QueuePolicy::Unbounded, items) == pending + items,
    decreases items.len(),
{
    if items.len() > 0 {
        lemma_unbounded_keeps_order(pending, items.drop_last());
        assert((pending + items.drop_last()).push(items.last()) == pending + items);
    } else {
        assert(pending + items == pending);
    }
}

/// Under the drop-oldest policy the queue always holds the newest messages
/// offered, in the order they were offered: of what was waiting followed by
/// the new messages, the last `cap`.
pub proof fn lemma_drop_oldest_keeps_newest<T>(pending: Seq<T>, cap: usize, items: Seq<T>)
    requires
        pending.len() <= cap,
    ensures
        enqueue_all(pending, QueuePolicy::DropOldest(cap), items) == newest(pending + items, cap as nat),
    decreases items.len(),
{
    if items.len() == 0 {
        assert(pending + items == pending);
    } else {
        let prev = pending + items.drop_last();
        lemma_drop_oldest_keeps_newest(pending, cap, items.drop_last());
        assert(prev.push(items.last()) == pending + items);
        let q = newest(prev, cap as nat);
        let all = pending + items;
        if prev.len() <= cap {
            assert(q.push(items.last()) == all);
        } else {
            assert(q.push(items.last()).subrange(1, cap + 1) == all.subrange(all.len() - cap, all.len() as int));
        }
    }
}

/// Whether a queue may hold `pending` under `policy`.
pub open spec fn fits<T>(pending: Seq<T>, policy: QueuePolicy) -> bool {
    match policy {
        QueuePolicy::Unbounded => true,
        QueuePolicy::DropOldest(cap) => pending.len() <= cap,
    }
}

/// Under any policy, as long as what was waiting and the new messages fit its
/// bound, offering messages one by one to an open channel appends them in
/// order: a consumer that drains it afterwards receives what was waiting and
/// then exactly those messages, none lost, repeated or reordered.
pub proof fn lemma_order_kept_within_bound<T>(pending: Seq<T>, policy: QueuePolicy, items: Seq<T>)
    requires
        fits(pending + items, policy),
    ensures
        enqueue_all(pending, policy, items) == pending + items,
{
    match policy {
        QueuePolicy::Unbounded => lemma_unbounded_keeps_order(pending, items),
        QueuePolicy::DropOldest(cap) => lemma_drop_oldest_keeps_newest(pending, cap, items),
    }
}

/// A one-directional FIFO channel between a producer and a consumer.
///
/// Closing it tears it down: messages still waiting are dropped, further ones
/// are refused, and the consumer sees `ChannelClosed` from then on.
pub struct Channel<T> {
    queue: VecDeque<T>,
    policy: QueuePolicy,
    closed: bool,
}

/// The channel from the game layer to the story layer.
pub type EventChannel = Channel<Event>;

/// The channel from the story layer to the game layer.
pub type CommandChannel = Channel<Command>;

impl<T> Channel<T> {
    /// The messages waiting, oldest first.
    pub closed spec fn pending(&self) -> Seq<T> {
        self.queue@
    }

    pub closed spec fn spec_policy(&self) -> QueuePolicy {
        self.policy
    }

    pub closed spec fn spec_is_closed(&self) -> bool {
        self.closed
    }

    /// A queue within its policy's bound; a closed channel holds nothing.
    pub open spec fn wf(&self) -> bool {
        &&& fits(self.pending(), self.spec_policy())
        &&& self.spec_is_closed() ==> self.pending().len() == 0
    }

    /// An open, empty channel that keeps every message.
    pub fn new() -> (r: Self)
        ensures
            r.wf(),
            r.pending() == Seq::<T>::empty(),
            r.spec_policy() == QueuePolicy::Unbounded,
            !r.spec_is_closed(),
    {
        Channel { queue: VecDeque::new(), policy: QueuePolicy::Unbounded, closed: false }
    }

    /// An open, empty channel with the given policy.
    pub fn with_policy(policy: QueuePolicy) -> (r: Self)
        ensures
            r.wf(),
            r.pending() == Seq::<T>::empty(),
            r.spec_policy() == policy,
            !r.spec_is_closed(),
    {
        Channel { queue: VecDeque::new(), policy, closed: false }
    }

    #[verifier::when_used_as_spec(spec_policy)]
    pub fn policy(&self) -> (r: QueuePolicy)
        ensures
            r == self.spec_policy(),
    {
        self.policy
    }

    #[verifier::when_used_as_spec(spec_is_closed)]
    pub fn is_closed(&self) -> (r: bool)
        ensures
            r == self.spec_is_closed(),
    {
        self.closed
    }

    /// The number of messages waiting.
    pub fn len(&self) -> (r: usize)
        ensures
            r == self.pending().len(),
    {
        self.queue.len()
    }

    /// Offers a message without blocking. On an open channel it joins the queue
    /// as the policy says; on a closed one it is refused.
    pub fn send(&mut self, item: T) -> (r: Result<(), ChannelError>)
        requires
            old(self).wf(),
        ensures
            final(self).wf(),
            final(self).spec_policy() == old(self).spec_policy(),
            final(self).spec_is_closed() == old(self).spec_is_closed(),
            old(self).spec_is_closed() ==> r == Err::<(), ChannelError>(ChannelError::ChannelClosed)
                && final(self).pending() == old(self).pending(),
            !old(self).spec_is_closed() ==> r == Ok::<(), ChannelError>(())
                && final(self).pending() == enqueue(old(self).pending(), old(self).spec_policy(), item),
    {
        if self.closed {
            return Err(ChannelError::ChannelClosed);
        }
        self.queue.push_back(item);
        match self.policy {
            QueuePolicy::Unbounded => {},
            QueuePolicy::DropOldest(cap) => {
                if self.queue.len() > cap {
                    let _ = self.queue.pop_front();
                }
            },
        }
        Ok(())
    }

    /// Takes the oldest waiting message without blocking: `Ok(None)` when none
    /// waits, `ChannelClosed` once the channel is torn down.
    pub fn next(&mut self) -> (r: Result<Option<T>, ChannelError>)
        requires
            old(self).wf(),
        ensures
            final(self).wf(),
            final(self).spec_policy() == old(self).spec_policy(),
            final(self).spec_is_closed() == old(self).spec_is_closed(),
            old(self).spec_is_closed() ==> r == Err::<Option<T>, ChannelError>(ChannelError::ChannelClosed)
                && final(self).pending() == old(self).pending(),
            !old(self).spec_is_closed() && old(self).pending().len() > 0 ==> r == Ok::<
                Option<T>,
                ChannelError,
            >(Some(old(self).pending()[0])) && final(self).pending() == old(self).pending().drop_first(),
            !old(self).spec_is_closed() && old(self).pending().len() == 0 ==> r == Ok::<
                Option<T>,
                ChannelError,
            >(None) && final(self).pending() == old(self).pending(),
    {
        if self.closed {
            return Err(ChannelError::ChannelClosed);
        }
        match self.queue.pop_front() {
            Some(item) => Ok(Some(item)),
            None => Ok(None),
        }
    }

    /// Takes every waiting message, oldest first, without blocking. A closed
    /// channel answers `ChannelClosed`.
    pub fn drain(&mut self) -> (r: Result<Vec<T>, ChannelError>)
        requires
            old(self).wf(),
        ensures
            final(self).wf(),
            final(self).spec_policy() == old(self).spec_policy(),
            final(self).spec_is_closed() == old(self).spec_is_closed(),
            old(self).spec_is_closed() ==> r is Err && r->Err_0 == ChannelError::ChannelClosed,
            !old(self).spec_is_closed() ==> r is Ok && r->Ok_0@ == old(self).pending(),
            final(self).pending() == Seq::<T>::empty(),
    {
        if self.closed {
            return Err(ChannelError::ChannelClosed);
        }
        let ghost start = self.queue@;
        let mut out: Vec<T> = Vec::new();
        while self.queue.len() > 0
            invariant
                out@ + self.queue@ == start,
                self.policy == old(self).policy,
                self.closed == old(self).closed,
            decreases self.queue@.len(),
        {
            match self.queue.pop_front() {
                Some(item) => out.push(item),
                None => {},
            }
        }
        Ok(out)
    }

    /// Tears the channel down, dropping the messages still waiting.
    pub fn close(&mut self)
        requires
            old(self).wf(),
        ensures
            final(self).wf(),
            final(self).spec_is_closed(),
            final(self).spec_policy() == old(self).spec_policy(),
            final(self).pending() == Seq::<T>::empty(),
    {
        self.queue.clear();
        self.closed = true;
    }
}

impl Channel<Event> {
    /// Called by the game layer when a moment of interest occurs.
    pub fn emit(&mut self, event: Event) -> (r: Result<(), ChannelError>)
        requires
            old(self).wf(),
        ensures
            final(self).wf(),
            final(self).spec_policy() == old(self).spec_policy(),
            final(self).spec_is_closed() == old(self).spec_is_closed(),
            old(self).spec_is_closed() ==> r == Err::<(), ChannelError>(ChannelError::ChannelClosed)
                && final(self).pending() == old(self).pending(),
            !old(self).spec_is_closed() ==> r == Ok::<(), ChannelError>(())
                && final(self).pending() == enqueue(old(self).pending(), old(self).spec_policy(), event),
    {
        self.send(event)
    }
}

impl Channel<Command> {
    /// Called by the story layer to ask the game layer for a side effect.
    pub fn request(&mut self, command: Command) -> (r: Result<(), ChannelError>)
        requires
            old(self).wf(),
        ensures
            final(self).wf(),
            final(self).spec_policy() == old(self).spec_policy(),
            final(self).spec_is_closed() == old(self).spec_is_closed(),
            old(self).spec_is_closed() ==> r == Err::<(), ChannelError>(ChannelError::ChannelClosed)
                && final(self).pending() == old(self).pending(),
            !old(self).spec_is_closed() ==> r == Ok::<(), ChannelError>(())
                && final(self).pending() == enqueue(old(self).pending(), old(self).spec_policy(), command),
    {
        self.send(command)
    }
}

} // verus!
