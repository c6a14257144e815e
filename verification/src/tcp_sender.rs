//! The outgoing side of a connection: messages wait in a queue and are
//! written one at a time, in the order they were queued.
use std::collections::VecDeque;
use vstd::prelude::*;

verus! {

broadcast use vstd::std_specs::vecdeque::group_vec_dequeue_axioms;

/// The queue of a connection's outgoing messages and the state of its writer.
#[derive(Debug)]
pub struct TCPSender<T> {
    /// Messages not yet written, oldest first; while a write is in progress
    /// its message is the first one.
    pub queue: VecDeque<T>,
    /// Whether the writer is free to take the next message.
    pub writer_idle: bool,
    /// Whether the connection was closed, after a failed write or a shutdown.
    pub closed: bool,
}

/// The queue after `message` was queued.
pub open spec fn queued<T>(queue: Seq<T>, message: T) -> Seq<T> {
    queue.push(message)
}

/// The queue after the write of its oldest message ended: a success removes
/// that message, a failure drops the whole queue.
pub open spec fn after_write<T>(queue: Seq<T>, success: bool) -> Seq<T> {
    if success {
        queue.drop_first()
    } else {
        Seq::empty()
    }
}

/// The messages that `n` successful writes put on the wire, from `queue`:
/// each write takes the oldest message still queued.
pub open spec fn written<T>(queue: Seq<T>, n: nat) -> Seq<T>
    decreases n,
{
    if n == 0 || queue.len() == 0 {
        Seq::empty()
    } else {
        seq![queue[0]] + written(after_write(queue, true), (n - 1) as nat)
    }
}

impl<T> TCPSender<T> {
    /// A sender with an open connection and nothing to send.
    pub fn new() -> (sender: TCPSender<T>)
        ensures
            sender.queue@ == Seq::<T>::empty(),
            sender.writer_idle,
            !sender.closed,
    {
        TCPSender { queue: VecDeque::new(), writer_idle: true, closed: false }
    }

    /// Queues `message`. The result says whether the queue was empty, so
    /// that processing has to be started.
    pub fn push(&mut self, message: T) -> (start_processing: bool)
        ensures
            final(self).queue@ == queued(old(self).queue@, message),
            final(self).writer_idle == old(self).writer_idle,
            final(self).closed == old(self).closed,
            start_processing == (old(self).queue@.len() == 0),
    {
        self.queue.push_back(message);
        self.queue.len() == 1
    }

    /// Starts writing the oldest message, if the writer is free and the
    /// connection open; the message stays queued until the write ends.
    pub fn start_write(&mut self) -> (next: Option<&T>)
        ensures
            old(self).writer_idle && !old(self).closed && old(self).queue@.len() > 0 ==> {
                &&& next == Some(&old(self).queue@[0])
                &&& !final(self).writer_idle
            },
            !(old(self).writer_idle && !old(self).closed && old(self).queue@.len() > 0) ==> {
                &&& next is None
                &&& final(self).writer_idle == old(self).writer_idle
            },
            final(self).queue@ == old(self).queue@,
            final(self).closed == old(self).closed,
    {
        if self.writer_idle && !self.closed && self.queue.len() > 0 {
            self.writer_idle = false;
            Some(&self.queue[0])
        } else {
            None
        }
    }

    /// The write in progress ended. On success the message leaves the queue
    /// and the result says whether more messages wait; on failure the
    /// connection is closed and the queue dropped.
    pub fn write_finished(&mut self, success: bool) -> (more: bool)
        requires
            !old(self).writer_idle,
            old(self).queue@.len() > 0,
        ensures
            final(self).queue@ == after_write(old(self).queue@, success),
            success ==> {
                &&& final(self).writer_idle
                &&& final(self).closed == old(self).closed
                &&& more == (final(self).queue@.len() > 0)
            },
            !success ==> {
                &&& !final(self).writer_idle
                &&& final(self).closed
                &&& !more
            },
    {
        if success {
            self.queue.pop_front();
            self.writer_idle = true;
            proof {
                assert(self.queue@ =~= old(self).queue@.drop_first());
            }
            self.queue.len() > 0
        } else {
            self.writer_idle = false;
            self.closed = true;
            self.queue.clear();
            false
        }
    }

    /// Closes the connection and drops what was waiting.
    pub fn shutdown(&mut self)
        ensures
            final(self).queue@ == Seq::<T>::empty(),
            final(self).closed,
            !final(self).writer_idle,
    {
        self.writer_idle = false;
        self.closed = true;
        self.queue.clear();
    }
}

/// Messages leave in the order they were queued: `n` successful writes
/// put exactly the `n` oldest messages on the wire, oldest first.
pub proof fn lemma_written_in_order<T>(queue: Seq<T>, n: nat)
    requires
        n <= queue.len(),
    ensures
        written(queue, n) == queue.take(n as int),
    decreases n,
{
    if n > 0 {
        lemma_written_in_order(queue.drop_first(), (n - 1) as nat);
        assert(seq![queue[0]] + queue.drop_first().take(n - 1) =~= queue.take(n as int));
    } else {
        assert(queue.take(0) =~= Seq::<T>::empty());
    }
}

/// A message queued behind others leaves after all of them: writing the
/// whole queue with `message` queued last puts the earlier messages on the
/// wire first, in order, and `message` last.
pub proof fn lemma_fifo<T>(queue: Seq<T>, message: T)
    ensures
        written(queued(queue, message), queue.len() + 1) == queue.push(message),
{
    lemma_written_in_order(queued(queue, message), (queue.len() + 1) as nat);
    assert(queue.push(message).take(queue.len() + 1 as int) =~= queue.push(message));
}

} // verus!
