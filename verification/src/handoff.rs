//! The bounded buffer hand-off queue.
//!
//! Buffers the producer has queued for processing travel to the transport's
//! process callback through a bounded FIFO channel; its capacity is the
//! backpressure bound on in-flight buffers. The queue is a channel rather
//! than a plain list because the producer side and the process callback run
//! on different threads in the embedding process.
//!
//! The channel itself comes from an outside crate; the struct holds both of
//! its endpoints, so it is never disconnected and nothing else sends or
//! receives on it. Its contents are named by `process_queue_view`, and the
//! wrappers state what each call does to that view.

use vstd::prelude::*;

verus! {

/// How many buffers may sit between "queued by the producer" and "handed to
/// the transport for processing".
pub const MAX_PROCESS_BUFFERS: usize = 4;

/// A bounded FIFO of raw buffer-slot identifiers, holding both endpoints of
/// one bounded channel.
#[verifier::external_body]
pub struct ProcessQueue {
    sender: crossbeam_channel::Sender<usize>,
    receiver: crossbeam_channel::Receiver<usize>,
}

/// The identifiers in the queue, oldest first.
pub uninterp spec fn process_queue_view(q: ProcessQueue) -> Seq<usize>;

/// The capacity the queue was created with.
pub uninterp spec fn process_queue_capacity(q: ProcessQueue) -> usize;

/// Relies on crossbeam_channel::bounded: a FIFO channel that holds at most
/// `cap` messages, created empty.
#[verifier::external_body]
pub fn process_queue_new(cap: usize) -> (q: ProcessQueue)
    requires
        cap >= 1,
    ensures
        process_queue_view(q) == Seq::<usize>::empty(),
        process_queue_capacity(q) == cap,
{
    let (sender, receiver) = crossbeam_channel::bounded(cap);
    ProcessQueue { sender, receiver }
}

/// Relies on crossbeam_channel::Sender::try_send: appends to the channel,
/// or fails without effect when the channel holds `cap` messages. Both
/// endpoints live in the struct, so the channel cannot be disconnected.
#[verifier::external_body]
pub fn process_queue_push(q: &mut ProcessQueue, handle: usize) -> (r: bool)
    ensures
        process_queue_capacity(*final(q)) == process_queue_capacity(*old(q)),
        process_queue_view(*old(q)).len() < process_queue_capacity(*old(q)) ==> r
            && process_queue_view(*final(q)) == process_queue_view(*old(q)).push(handle),
        process_queue_view(*old(q)).len() >= process_queue_capacity(*old(q)) ==> !r
            && process_queue_view(*final(q)) == process_queue_view(*old(q)),
{
    q.sender.try_send(handle).is_ok()
}

/// Relies on crossbeam_channel::Receiver::try_recv: takes the oldest
/// message, or fails without effect when the channel is empty.
#[verifier::external_body]
pub fn process_queue_pop(q: &mut ProcessQueue) -> (r: Option<usize>)
    ensures
        process_queue_capacity(*final(q)) == process_queue_capacity(*old(q)),
        process_queue_view(*old(q)).len() == 0 ==> r is None && process_queue_view(*final(q))
            == process_queue_view(*old(q)),
        process_queue_view(*old(q)).len() > 0 ==> r == Some(process_queue_view(*old(q))[0])
            && process_queue_view(*final(q)) == process_queue_view(*old(q)).skip(1),
{
    q.receiver.try_recv().ok()
}

/// Relies on crossbeam_channel::Receiver::len: the number of messages in
/// the channel.
#[verifier::external_body]
pub fn process_queue_len(q: &ProcessQueue) -> (r: usize)
    ensures
        r == process_queue_view(*q).len(),
{
    q.receiver.len()
}

/// Discards everything in the queue, oldest first.
pub fn process_queue_drain(q: &mut ProcessQueue)
    ensures
        process_queue_capacity(*final(q)) == process_queue_capacity(*old(q)),
        process_queue_view(*final(q)) == Seq::<usize>::empty(),
{
    let mut n = process_queue_len(q);
    while n > 0
        invariant
            n == process_queue_view(*q).len(),
            process_queue_capacity(*q) == process_queue_capacity(*old(q)),
        decreases n,
    {
        let _ = process_queue_pop(q);
        n = n - 1;
    }
    proof {
        assert(process_queue_view(*q) =~= Seq::<usize>::empty());
    }
}

} // verus!
