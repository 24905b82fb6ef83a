//! The per-stream actor: negotiation and buffer lifecycle.
//!
//! A stream negotiates one pixel format and buffer layout with the remote
//! consumer, then cycles a small pool of transport-owned buffers between
//! the capture backend (producer) and the transport under backpressure.
//! All state lives on the IPC loop thread; the embedding process drives
//! these methods from there and performs the returned actions.

use crate::backend::EnumFormatInfo;
use crate::backend::FixateFormat;
use crate::backend::StreamBackend;
use crate::backend::StreamInfo;
use crate::buffer::BufferCursorInfo;
use crate::buffer::BufferHandle;
use crate::buffer::BufferInfo;
use crate::buffer::BufferLocation;
use crate::buffer::BufferPlaneInfo;
use crate::buffer::BufferSlot;
use crate::buffer::BufferUserHandle;
use crate::buffer::DataBlock;
use crate::buffer::HeaderMeta;
use crate::buffer::MetaBlock;
use crate::buffer::MetaData;
use crate::buffer::fill_cursor_meta;
use crate::buffer::find_meta;
use crate::buffer::spec_cursor_after_fill;
use crate::buffer::spec_find_meta;
use crate::format::Format;
use crate::handoff::MAX_PROCESS_BUFFERS;
use crate::handoff::ProcessQueue;
use crate::handoff::process_queue_capacity;
use crate::handoff::process_queue_drain;
use crate::handoff::process_queue_new;
use crate::handoff::process_queue_pop;
use crate::handoff::process_queue_push;
use crate::handoff::process_queue_view;
use crate::params::CURSOR_META_SIZE;
use crate::params::build_format;
use crate::params::build_stream_params;
use crate::params::spec_is_buffers_pod;
use crate::params::spec_is_format_pod;
use crate::params::spec_is_meta_pod;
use crate::pod::PodObject;
use crate::pod::SPA_DATA_DmaBuf;
use crate::pod::SPA_DATA_Invalid;
use crate::pod::SPA_DATA_MemFd;
use crate::pod::SPA_META_CURSOR_SIZE;
use crate::pod::SPA_META_Cursor;
use crate::pod::SPA_META_HEADER_SIZE;
use crate::pod::SPA_META_Header;
use crate::pod::SPA_PARAM_Format;
use crate::pod::copy_vec_u64;
use crate::pod::spec_video_raw_info;
use crate::pod::VideoRawInfo;
use vstd::prelude::*;

verus! {

/// Lifecycle of a stream.
#[derive(Clone, Copy, Debug, PartialEq, Eq, Structural)]
pub enum StreamPhase {
    /// Registered with the transport, initial offers published.
    Created,
    /// A proposal round is open.
    Negotiating,
    /// Buffer traffic is active.
    Streaming,
    /// The transport paused the stream.
    Paused,
    /// Disconnected; terminal.
    Terminated,
    /// Absorbing failure state.
    Error,
}

/// The lifecycle state the transport reports.
#[derive(Clone, Copy, Debug, PartialEq, Eq, Structural)]
pub enum TransportState {
    Unconnected,
    Connecting,
    Paused,
    Streaming,
    Error,
}

/// A failure surfaced to the producer thread.
#[derive(Clone, Copy, Debug, PartialEq, Eq, Structural)]
pub enum StreamError {
    /// The hand-off queue is full: more buffers are in flight than the
    /// backpressure bound allows.
    Backpressure,
}

/// What the embedding process must do after a parameter notification.
#[derive(Debug, PartialEq)]
pub enum ParamChangeAction {
    /// Nothing to publish; the stream awaits another proposal.
    NoChange,
    /// Publish these parameter objects to the transport.
    Publish(Vec<PodObject>),
}

/// What one process callback did.
#[derive(Clone, Copy, Debug, PartialEq, Eq, Structural)]
pub enum ProcessOutcome {
    /// This buffer was filled and handed back to the transport.
    Processed(BufferHandle),
    /// Nothing was queued: a scheduling anomaly, nothing processed.
    Unscheduled,
    /// The queued identifier no longer names a live buffer.
    Broken,
}

/// The index of the slot identified by `raw`, if any.
pub open spec fn spec_find_slot(buffers: Seq<BufferSlot>, raw: usize) -> Option<int>
    decreases buffers.len(),
{
    if buffers.len() == 0 {
        None
    } else if buffers[0].handle.spec_raw() == raw {
        Some(0int)
    } else {
        match spec_find_slot(buffers.skip(1), raw) {
            Some(i) => Some(i + 1),
            None => None,
        }
    }
}

/// The index of the first slot sitting in the transport's free pool.
pub open spec fn spec_first_available(buffers: Seq<BufferSlot>) -> Option<int>
    decreases buffers.len(),
{
    if buffers.len() == 0 {
        None
    } else if buffers[0].loc is Transport {
        Some(0int)
    } else {
        match spec_first_available(buffers.skip(1)) {
            Some(i) => Some(i + 1),
            None => None,
        }
    }
}

/// What a slot is found at, and that it is the only one with that raw.
proof fn lemma_find_slot_index(buffers: Seq<BufferSlot>, raw: usize)
    ensures
        match spec_find_slot(buffers, raw) {
            Some(k) => 0 <= k < buffers.len() && buffers[k].handle.spec_raw() == raw,
            None => forall|j: int|
                0 <= j < buffers.len() ==> #[trigger] buffers[j].handle.spec_raw() != raw,
        },
    decreases buffers.len(),
{
    if buffers.len() > 0 {
        lemma_find_slot_index(buffers.skip(1), raw);
        assert forall|j: int|
            0 <= j < buffers.len() && buffers[0].handle.spec_raw() != raw && spec_find_slot(
                buffers.skip(1),
                raw,
            ) is None implies #[trigger] buffers[j].handle.spec_raw() != raw by {
            if j > 0 {
                assert(buffers.skip(1)[j - 1] == buffers[j]);
            }
        }
    }
}

/// A slot with the sought raw identifier, unique among the slots, is the
/// one found.
proof fn lemma_find_slot_at(buffers: Seq<BufferSlot>, k: int)
    requires
        0 <= k < buffers.len(),
        forall|i: int, j: int|
            0 <= i < j < buffers.len() ==> #[trigger] buffers[i].handle.spec_raw()
                != #[trigger] buffers[j].handle.spec_raw(),
    ensures
        spec_find_slot(buffers, buffers[k].handle.spec_raw()) == Some(k),
    decreases buffers.len(),
{
    if k > 0 {
        assert forall|i: int, j: int|
            0 <= i < j < buffers.skip(1).len() implies #[trigger] buffers.skip(
            1,
        )[i].handle.spec_raw() != #[trigger] buffers.skip(1)[j].handle.spec_raw() by {
            assert(buffers.skip(1)[i] == buffers[i + 1]);
            assert(buffers.skip(1)[j] == buffers[j + 1]);
        }
        assert(buffers.skip(1)[k - 1] == buffers[k]);
        lemma_find_slot_at(buffers.skip(1), k - 1);
        assert(buffers[0].handle.spec_raw() != buffers[k].handle.spec_raw());
    }
}

/// Replacing a slot by one with the same handle moves no search result.
proof fn lemma_find_slot_update(buffers: Seq<BufferSlot>, k: int, slot: BufferSlot, raw: usize)
    requires
        0 <= k < buffers.len(),
        slot.handle == buffers[k].handle,
    ensures
        spec_find_slot(buffers.update(k, slot), raw) == spec_find_slot(buffers, raw),
    decreases buffers.len(),
{
    let updated = buffers.update(k, slot);
    if k == 0 {
        assert(updated[0].handle == buffers[0].handle);
        assert(updated.skip(1) =~= buffers.skip(1));
    } else {
        assert(updated[0] == buffers[0]);
        assert(updated.skip(1) =~= buffers.skip(1).update(k - 1, slot));
        assert(buffers.skip(1)[k - 1] == buffers[k]);
        lemma_find_slot_update(buffers.skip(1), k - 1, slot, raw);
    }
}

/// Appending a slot leaves every earlier search result in place; a raw not
/// found before is found at the end exactly when the new slot carries it.
proof fn lemma_find_slot_push(buffers: Seq<BufferSlot>, slot: BufferSlot, raw: usize)
    ensures
        match spec_find_slot(buffers, raw) {
            Some(k) => spec_find_slot(buffers.push(slot), raw) == Some(k),
            None => spec_find_slot(buffers.push(slot), raw) == (if slot.handle.spec_raw() == raw {
                Some(buffers.len() as int)
            } else {
                None::<int>
            }),
        },
    decreases buffers.len(),
{
    let pushed = buffers.push(slot);
    assert(pushed.len() == buffers.len() + 1);
    if buffers.len() == 0 {
        assert(pushed[0] == slot);
        assert(pushed.skip(1) =~= Seq::<BufferSlot>::empty());
        assert(spec_find_slot(pushed.skip(1), raw) is None);
        if slot.handle.spec_raw() == raw {
            assert(spec_find_slot(pushed, raw) == Some(0int));
        } else {
            assert(spec_find_slot(pushed, raw) is None);
        }
    } else {
        assert(pushed[0] == buffers[0]);
        assert(pushed.skip(1) =~= buffers.skip(1).push(slot));
        lemma_find_slot_push(buffers.skip(1), slot, raw);
        assert(buffers.skip(1).len() == buffers.len() - 1);
    }
}

/// Removing the slot that holds `raw` (unique among the slots) makes the
/// search fail; removing another slot keeps the found slot, at its shifted
/// index.
proof fn lemma_find_slot_remove(buffers: Seq<BufferSlot>, k: int, raw: usize)
    requires
        0 <= k < buffers.len(),
        forall|i: int, j: int|
            0 <= i < j < buffers.len() ==> #[trigger] buffers[i].handle.spec_raw()
                != #[trigger] buffers[j].handle.spec_raw(),
    ensures
        match spec_find_slot(buffers, raw) {
            Some(j) => if j == k {
                spec_find_slot(buffers.remove(k), raw) is None
            } else if j < k {
                spec_find_slot(buffers.remove(k), raw) == Some(j)
            } else {
                spec_find_slot(buffers.remove(k), raw) == Some(j - 1)
            },
            None => spec_find_slot(buffers.remove(k), raw) is None,
        },
    decreases buffers.len(),
{
    lemma_find_slot_index(buffers, raw);
    let removed = buffers.remove(k);
    assert forall|j: int| 0 <= j < removed.len() implies #[trigger] removed[j] == (if j < k {
        buffers[j]
    } else {
        buffers[j + 1]
    }) by {}
    lemma_find_slot_index(removed, raw);
    match spec_find_slot(buffers, raw) {
        Some(j) => {
            if j == k {
                if spec_find_slot(removed, raw) is Some {
                    let m = spec_find_slot(removed, raw)->0;
                    if m < k {
                        assert(buffers[m].handle.spec_raw() == raw);
                        assert(m != j);
                    } else {
                        assert(buffers[m + 1].handle.spec_raw() == raw);
                        assert(m + 1 != j);
                    }
                }
            } else if j < k {
                assert(removed[j].handle.spec_raw() == raw);
                assert forall|i: int, m: int|
                    0 <= i < m < removed.len() implies #[trigger] removed[i].handle.spec_raw()
                        != #[trigger] removed[m].handle.spec_raw() by {}
                lemma_find_slot_at(removed, j);
            } else {
                assert(removed[j - 1].handle.spec_raw() == raw);
                assert forall|i: int, m: int|
                    0 <= i < m < removed.len() implies #[trigger] removed[i].handle.spec_raw()
                        != #[trigger] removed[m].handle.spec_raw() by {}
                lemma_find_slot_at(removed, j - 1);
            }
        },
        None => {
            if spec_find_slot(removed, raw) is Some {
                let m = spec_find_slot(removed, raw)->0;
                if m < k {
                    assert(buffers[m].handle.spec_raw() == raw);
                } else {
                    assert(buffers[m + 1].handle.spec_raw() == raw);
                }
            }
        },
    }
}

/// The initial offers published for a stream: one not-yet-fixated format
/// offer per candidate alternative.
pub open spec fn spec_is_format_pod_offers(params: Seq<PodObject>, info: StreamInfo) -> bool {
    forall|i: int|
        0 <= i < params.len() && i < info.enum_formats@.len() ==> spec_is_format_pod(
            #[trigger] params[i],
            info.width,
            info.height,
            info.enum_formats@[i].formats@,
            info.enum_formats@[i].modifiers@,
            false,
        )
}

/// A stream as just created: the given configuration, no buffers, an
/// empty queue, counters at their initial values, awaiting the first
/// format notification.
pub open spec fn spec_fresh_stream(core: StreamCore, info: StreamInfo) -> bool {
    &&& core.width == info.width
    &&& core.height == info.height
    &&& core.enum_formats@ == info.enum_formats@
    &&& core.max_buffers == info.max_buffers
    &&& core.phase is Created
    &&& !core.driving
    &&& core.buffers@.len() == 0
    &&& core.queue_view().len() == 0
    &&& core.seq == 0
    &&& core.cursor_id == 1
    &&& !core.terminated
}

/// The per-stream state: stream configuration, negotiation phase, the
/// tracked buffer slots, and the bounded hand-off queue.
pub struct StreamCore {
    /// Target frame width.
    pub width: u32,
    /// Target frame height.
    pub height: u32,
    /// The candidate (formats, modifiers) alternatives offered at creation.
    pub enum_formats: Vec<EnumFormatInfo>,
    /// Upper bound of the buffer-count range offered to the transport.
    pub max_buffers: u32,
    /// Lifecycle phase.
    pub phase: StreamPhase,
    /// Whether the transport reports this side as driving buffer cycling.
    pub driving: bool,
    /// The transport-owned buffers currently tracked, by stable handle.
    pub buffers: Vec<BufferSlot>,
    /// The bounded hand-off queue between producer and process callback.
    pub queue: ProcessQueue,
    /// Frame sequence number, stamped into each processed frame header.
    pub seq: u64,
    /// Cursor identity counter; advanced when a snapshot claims a new one.
    pub cursor_id: u32,
    /// Whether termination has been requested.
    pub terminated: bool,
}

impl StreamCore {
    /// The raw identifiers sitting in the hand-off queue, oldest first.
    pub open spec fn queue_view(self) -> Seq<usize> {
        process_queue_view(self.queue)
    }

    /// Well-formedness: the hand-off queue is the bounded queue it was
    /// created as; slot handles are non-null and pairwise distinct; queued
    /// identifiers are pairwise distinct and, where they still name a live
    /// slot, that slot is marked queued; every slot away from the
    /// transport carries a user handle; and every offered alternative
    /// names at least one format.
    pub open spec fn wf(self) -> bool {
        &&& process_queue_capacity(self.queue) == MAX_PROCESS_BUFFERS
        &&& self.queue_view().len() <= MAX_PROCESS_BUFFERS
        &&& forall|i: int, j: int|
            0 <= i < j < self.buffers@.len() ==> #[trigger] self.buffers@[i].handle.spec_raw()
                != #[trigger] self.buffers@[j].handle.spec_raw()
        &&& forall|i: int|
            0 <= i < self.buffers@.len() ==> #[trigger] self.buffers@[i].handle.spec_raw() != 0
        &&& forall|i: int, j: int|
            0 <= i < j < self.queue_view().len() ==> self.queue_view()[i] != self.queue_view()[j]
        &&& forall|i: int|
            0 <= i < self.queue_view().len() ==> match spec_find_slot(
                self.buffers@,
                #[trigger] self.queue_view()[i],
            ) {
                Some(k) => self.buffers@[k].loc is Queued,
                None => true,
            }
        &&& forall|i: int|
            0 <= i < self.buffers@.len() ==> (!(#[trigger] self.buffers@[i].loc is Transport)
                ==> self.buffers@[i].user_handle is Some)
        &&& forall|i: int|
            0 <= i < self.enum_formats@.len() ==> #[trigger] self.enum_formats@[i].formats@.len()
                > 0
    }

    /// Finds the slot identified by `raw`.
    fn find_slot(&self, raw: usize) -> (r: Option<usize>)
        ensures
            match r {
                Some(k) => spec_find_slot(self.buffers@, raw) == Some(k as int) && k
                    < self.buffers@.len() && self.buffers@[k as int].handle.spec_raw() == raw,
                None => spec_find_slot(self.buffers@, raw) is None,
            },
    {
        let mut i: usize = 0;
        proof {
            assert(self.buffers@.skip(0) =~= self.buffers@);
        }
        while i < self.buffers.len()
            invariant
                i <= self.buffers@.len(),
                spec_find_slot(self.buffers@, raw) == match spec_find_slot(
                    self.buffers@.skip(i as int),
                    raw,
                ) {
                    Some(k) => Some(k + i),
                    None => None::<int>,
                },
            decreases self.buffers@.len() - i,
        {
            proof {
                assert(self.buffers@.skip(i as int)[0] == self.buffers@[i as int]);
                assert(self.buffers@.skip(i as int).skip(1) =~= self.buffers@.skip(i + 1));
            }
            if self.buffers[i].handle.as_raw() == raw {
                return Some(i);
            }
            i = i + 1;
        }
        proof {
            assert(self.buffers@.skip(i as int) =~= Seq::<BufferSlot>::empty());
        }
        None
    }

    /// Finds the first slot available in the transport's free pool.
    fn first_available(&self) -> (r: Option<usize>)
        ensures
            match r {
                Some(k) => spec_first_available(self.buffers@) == Some(k as int) && k
                    < self.buffers@.len() && self.buffers@[k as int].loc is Transport,
                None => spec_first_available(self.buffers@) is None,
            },
    {
        let mut i: usize = 0;
        proof {
            assert(self.buffers@.skip(0) =~= self.buffers@);
        }
        while i < self.buffers.len()
            invariant
                i <= self.buffers@.len(),
                spec_first_available(self.buffers@) == match spec_first_available(
                    self.buffers@.skip(i as int),
                ) {
                    Some(k) => Some(k + i),
                    None => None::<int>,
                },
            decreases self.buffers@.len() - i,
        {
            proof {
                assert(self.buffers@.skip(i as int)[0] == self.buffers@[i as int]);
                assert(self.buffers@.skip(i as int).skip(1) =~= self.buffers@.skip(i + 1));
            }
            if matches!(self.buffers[i].loc, BufferLocation::Transport) {
                return Some(i);
            }
            i = i + 1;
        }
        proof {
            assert(self.buffers@.skip(i as int) =~= Seq::<BufferSlot>::empty());
        }
        None
    }

    /// Creates the stream state and the initial format offers to publish:
    /// one offer per candidate alternative, none fixated yet.
    pub fn new(info: StreamInfo) -> (r: (StreamCore, Vec<PodObject>))
        requires
            forall|i: int|
                0 <= i < info.enum_formats@.len()
                    ==> #[trigger] info.enum_formats@[i].formats@.len() > 0,
        ensures
            r.0.wf(),
            spec_fresh_stream(r.0, info),
            r.1@.len() == info.enum_formats@.len(),
            spec_is_format_pod_offers(r.1@, info),
    {
        let width = info.width;
        let height = info.height;
        let core = StreamCore {
            width: info.width,
            height: info.height,
            enum_formats: info.enum_formats,
            max_buffers: info.max_buffers,
            phase: StreamPhase::Created,
            driving: false,
            buffers: Vec::new(),
            queue: process_queue_new(MAX_PROCESS_BUFFERS),
            seq: 0,
            cursor_id: 1,
            terminated: false,
        };
        let mut params: Vec<PodObject> = Vec::new();
        let mut i: usize = 0;
        while i < core.enum_formats.len()
            invariant
                i <= core.enum_formats@.len(),
                width == core.width,
                height == core.height,
                params@.len() == i,
                forall|k: int|
                    0 <= k < core.enum_formats@.len()
                        ==> #[trigger] core.enum_formats@[k].formats@.len() > 0,
                forall|j: int|
                    0 <= j < i as int ==> spec_is_format_pod(
                        #[trigger] params@[j],
                        core.width,
                        core.height,
                        core.enum_formats@[j].formats@,
                        core.enum_formats@[j].modifiers@,
                        false,
                    ),
            decreases core.enum_formats@.len() - i,
        {
            params.push(
                build_format(
                    width,
                    height,
                    &core.enum_formats[i].formats,
                    &core.enum_formats[i].modifiers,
                    false,
                ),
            );
            i = i + 1;
        }
        (core, params)
    }

    /// Effect of a termination request: the stream is disconnected, and the
    /// owner's terminate callback fires exactly when no earlier request did.
    pub open spec fn spec_terminate_transition(
        pre: StreamCore,
        post: StreamCore,
        fired: bool,
    ) -> bool {
        &&& post == (StreamCore {
            phase: StreamPhase::Terminated,
            terminated: true,
            ..pre
        })
        &&& fired == !pre.terminated
    }

    /// Requests termination. Idempotent: the returned flag, telling the
    /// owner to run its terminate callback, is set on the first request
    /// alone.
    pub fn terminate(&mut self) -> (fired: bool)
        requires
            old(self).wf(),
        ensures
            final(self).wf(),
            StreamCore::spec_terminate_transition(*old(self), *final(self), fired),
    {
        let fired = !self.terminated;
        self.terminated = true;
        self.phase = StreamPhase::Terminated;
        fired
    }

    /// Records the transport-assigned driving role.
    pub fn set_driving(&mut self, driving: bool)
        requires
            old(self).wf(),
        ensures
            final(self).wf(),
            *final(self) == (StreamCore { driving, ..*old(self) }),
    {
        self.driving = driving;
    }

    /// Effect of a transport state change. A pause discards everything in
    /// the hand-off queue without processing it; the discarded buffers
    /// return to the transport's free pool with no remove callback, since
    /// their physical resources are untouched. Streaming and error states
    /// move the phase; the connection states leave the stream alone.
    pub open spec fn spec_state_changed(
        pre: StreamCore,
        post: StreamCore,
        new_state: TransportState,
    ) -> bool {
        match new_state {
            TransportState::Paused => {
                &&& post.queue_view() == Seq::<usize>::empty()
                &&& post.buffers@.len() == pre.buffers@.len()
                &&& forall|i: int|
                    0 <= i < pre.buffers@.len() ==> #[trigger] post.buffers@[i] == (
                    if pre.buffers@[i].loc is Queued {
                        BufferSlot { loc: BufferLocation::Transport, ..pre.buffers@[i] }
                    } else {
                        pre.buffers@[i]
                    })
                &&& post.phase is Paused
                &&& post.width == pre.width
                &&& post.height == pre.height
                &&& post.enum_formats@ == pre.enum_formats@
                &&& post.max_buffers == pre.max_buffers
                &&& post.driving == pre.driving
                &&& post.seq == pre.seq
                &&& post.cursor_id == pre.cursor_id
                &&& post.terminated == pre.terminated
            },
            TransportState::Streaming => post == (StreamCore {
                phase: StreamPhase::Streaming,
                ..pre
            }),
            TransportState::Error => post == (StreamCore { phase: StreamPhase::Error, ..pre }),
            _ => post == pre,
        }
    }

    /// Applies a transport state change.
    pub fn on_state_changed(&mut self, new_state: TransportState)
        requires
            old(self).wf(),
        ensures
            final(self).wf(),
            StreamCore::spec_state_changed(*old(self), *final(self), new_state),
    {
        match new_state {
            TransportState::Paused => {
                self.phase = StreamPhase::Paused;
                process_queue_drain(&mut self.queue);
                let ghost mid = *self;
                let mut k: usize = 0;
                while k < self.buffers.len()
                    invariant
                        k <= self.buffers@.len(),
                        self.queue == mid.queue,
                        self.queue_view() == Seq::<usize>::empty(),
                        process_queue_capacity(self.queue) == MAX_PROCESS_BUFFERS,
                        self.buffers@.len() == mid.buffers@.len(),
                        self.width == mid.width,
                        self.height == mid.height,
                        self.enum_formats@ == mid.enum_formats@,
                        self.max_buffers == mid.max_buffers,
                        self.phase == mid.phase,
                        self.driving == mid.driving,
                        self.seq == mid.seq,
                        self.cursor_id == mid.cursor_id,
                        self.terminated == mid.terminated,
                        forall|i: int|
                            0 <= i < k as int ==> #[trigger] self.buffers@[i] == (
                            if mid.buffers@[i].loc is Queued {
                                BufferSlot { loc: BufferLocation::Transport, ..mid.buffers@[i] }
                            } else {
                                mid.buffers@[i]
                            }),
                        forall|i: int|
                            k as int <= i < self.buffers@.len() ==> #[trigger] self.buffers@[i]
                                == mid.buffers@[i],
                        forall|i: int, j: int|
                            0 <= i < j < mid.buffers@.len()
                                ==> #[trigger] mid.buffers@[i].handle.spec_raw()
                                != #[trigger] mid.buffers@[j].handle.spec_raw(),
                        forall|i: int|
                            0 <= i < mid.buffers@.len()
                                ==> #[trigger] mid.buffers@[i].handle.spec_raw() != 0,
                        forall|i: int|
                            0 <= i < mid.buffers@.len() ==> (!(
                            #[trigger] mid.buffers@[i].loc is Transport)
                                ==> mid.buffers@[i].user_handle is Some),
                        forall|i: int|
                            0 <= i < mid.enum_formats@.len()
                                ==> #[trigger] mid.enum_formats@[i].formats@.len() > 0,
                    decreases self.buffers@.len() - k,
                {
                    let slot = &mut self.buffers[k];
                    if matches!(slot.loc, BufferLocation::Queued) {
                        slot.loc = BufferLocation::Transport;
                    }
                    k = k + 1;
                }
            },
            TransportState::Streaming => {
                self.phase = StreamPhase::Streaming;
            },
            TransportState::Error => {
                self.phase = StreamPhase::Error;
            },
            _ => {},
        }
    }
}

} // verus!

verus! {

/// Effect of publishing the final buffer/metadata parameter set: the
/// stream starts streaming and the published set carries the buffer-count
/// range, the block count the backend asked for, the memory backing, and
/// the two fixed metadata blocks.
pub open spec fn spec_published_stream_params(
    pre: StreamCore,
    post: StreamCore,
    blocks: u32,
    is_dma_buf: bool,
    action: ParamChangeAction,
) -> bool {
    &&& post == (StreamCore { phase: StreamPhase::Streaming, ..pre })
    &&& action matches ParamChangeAction::Publish(params)
    &&& params@.len() == 3
    &&& spec_is_buffers_pod(params@[0], pre.max_buffers, blocks, is_dma_buf)
    &&& spec_is_meta_pod(params@[1], SPA_META_Header, SPA_META_HEADER_SIZE)
    &&& spec_is_meta_pod(params@[2], SPA_META_Cursor, CURSOR_META_SIZE)
}

/// Effect of one negotiation round, given the parsed proposal and the
/// backend's fixation answer.
///
/// An incompatible proposal, or a modifier proposal the backend answered
/// without choosing a modifier, changes nothing and leaves the round open.
/// A not-yet-fixated modifier proposal is answered by republishing offers
/// that pin the chosen modifier first, keeping the original alternatives
/// as fallback, and the round stays open. Anything else closes the round:
/// the final buffer parameters are published and the stream streams.
pub open spec fn spec_negotiated(
    pre: StreamCore,
    post: StreamCore,
    proposal_format: Format,
    dont_fixate: bool,
    modifiers: Seq<u64>,
    fixate: Option<FixateFormat>,
    action: ParamChangeAction,
) -> bool {
    match fixate {
        None => {
            &&& post == (StreamCore { phase: StreamPhase::Negotiating, ..pre })
            &&& action is NoChange
        },
        Some(fx) => match fx.modifier {
            None => if modifiers.len() > 0 {
                // Fixation defect: a modifier proposal answered without a
                // modifier; treated as incompatible.
                &&& post == (StreamCore { phase: StreamPhase::Negotiating, ..pre })
                &&& action is NoChange
            } else {
                spec_published_stream_params(pre, post, fx.num_planes, false, action)
            },
            Some(m) => if modifiers.len() > 0 && dont_fixate {
                &&& post == (StreamCore { phase: StreamPhase::Negotiating, ..pre })
                &&& action matches ParamChangeAction::Publish(params)
                &&& params@.len() == 1 + pre.enum_formats@.len()
                &&& spec_is_format_pod(
                    params@[0],
                    pre.width,
                    pre.height,
                    seq![proposal_format],
                    seq![m],
                    true,
                )
                &&& forall|i: int|
                    0 <= i < pre.enum_formats@.len() ==> spec_is_format_pod(
                        #[trigger] params@[i + 1],
                        pre.width,
                        pre.height,
                        pre.enum_formats@[i].formats@,
                        pre.enum_formats@[i].modifiers@,
                        false,
                    )
            } else {
                spec_published_stream_params(pre, post, fx.num_planes, true, action)
            },
        },
    }
}

/// Everything a parameter notification may do: only a format parameter
/// opens a round; a malformed proposal changes nothing; a well-formed one
/// proceeds on the backend's fixation answer, whatever it is.
pub open spec fn spec_param_outcome(
    pre: StreamCore,
    post: StreamCore,
    id: u32,
    param: Option<PodObject>,
    r: ParamChangeAction,
) -> bool {
    &&& (id != SPA_PARAM_Format || param is None) ==> post == pre && r is NoChange
    &&& match param {
        Some(obj) => id == SPA_PARAM_Format ==> match spec_video_raw_info(obj) {
            Some(parsed) => exists|fx: Option<FixateFormat>|
                spec_negotiated(pre, post, parsed.0, parsed.1, parsed.2, fx, r),
            None => post == pre && r is NoChange,
        },
        None => true,
    }
}

impl StreamCore {
    /// Applies the backend's fixation answer to a parsed format proposal.
    pub fn negotiate_step(
        &mut self,
        proposal: &VideoRawInfo,
        fixate: Option<FixateFormat>,
    ) -> (r: ParamChangeAction)
        requires
            old(self).wf(),
        ensures
            final(self).wf(),
            spec_negotiated(
                *old(self),
                *final(self),
                proposal.format,
                proposal.dont_fixate_modifier,
                proposal.modifiers@,
                fixate,
                r,
            ),
    {
        let fx = match fixate {
            None => {
                self.phase = StreamPhase::Negotiating;
                return ParamChangeAction::NoChange;
            },
            Some(fx) => fx,
        };
        if proposal.modifiers.len() > 0 {
            let m = match fx.modifier {
                None => {
                    self.phase = StreamPhase::Negotiating;
                    return ParamChangeAction::NoChange;
                },
                Some(m) => m,
            };
            if proposal.dont_fixate_modifier {
                let fixed_formats: Vec<Format> = vec![proposal.format];
                let fixed_modifiers: Vec<u64> = vec![m];
                let mut params: Vec<PodObject> = Vec::new();
                params.push(
                    build_format(self.width, self.height, &fixed_formats, &fixed_modifiers, true),
                );
                let mut i: usize = 0;
                while i < self.enum_formats.len()
                    invariant
                        *self == *old(self),
                        i <= self.enum_formats@.len(),
                        old(self).wf(),
                        params@.len() == i + 1,
                        spec_is_format_pod(
                            params@[0],
                            self.width,
                            self.height,
                            seq![proposal.format],
                            seq![m],
                            true,
                        ),
                        forall|j: int|
                            0 <= j < i as int ==> spec_is_format_pod(
                                #[trigger] params@[j + 1],
                                self.width,
                                self.height,
                                self.enum_formats@[j].formats@,
                                self.enum_formats@[j].modifiers@,
                                false,
                            ),
                    decreases self.enum_formats@.len() - i,
                {
                    params.push(
                        build_format(
                            self.width,
                            self.height,
                            &self.enum_formats[i].formats,
                            &self.enum_formats[i].modifiers,
                            false,
                        ),
                    );
                    i = i + 1;
                }
                self.phase = StreamPhase::Negotiating;
                return ParamChangeAction::Publish(params);
            }
        }
        let is_dma_buf = fx.modifier.is_some();
        let params = build_stream_params(self.max_buffers, fx.num_planes, is_dma_buf);
        self.phase = StreamPhase::Streaming;
        ParamChangeAction::Publish(params)
    }

    /// Handles a parameter-changed notification from the transport.
    ///
    /// Only a format parameter opens a round. A malformed proposal is
    /// dropped and the stream left as it was, awaiting a corrected one; a
    /// well-formed proposal is put to the backend for fixation, and the
    /// round proceeds on its answer, whatever that answer is.
    pub fn on_param_changed<B: StreamBackend>(
        &mut self,
        backend: &mut B,
        id: u32,
        param: Option<&PodObject>,
    ) -> (r: ParamChangeAction)
        requires
            old(self).wf(),
        ensures
            final(self).wf(),
            spec_param_outcome(
                *old(self),
                *final(self),
                id,
                match param {
                    Some(obj) => Some(*obj),
                    None => None,
                },
                r,
            ),
    {
        let obj = match param {
            None => {
                return ParamChangeAction::NoChange;
            },
            Some(o) => o,
        };
        if id != SPA_PARAM_Format {
            return ParamChangeAction::NoChange;
        }
        let raw_info = match VideoRawInfo::try_from_pod(obj) {
            Err(_) => {
                // Malformed proposal: drop it and await a corrected one.
                return ParamChangeAction::NoChange;
            },
            Ok(v) => v,
        };
        let formats: Vec<Format> = vec![raw_info.format];
        let modifiers = copy_vec_u64(&raw_info.modifiers);
        let fixate = backend.fixate_format(EnumFormatInfo { formats, modifiers });
        let r = self.negotiate_step(&raw_info, fixate);
        proof {
            let parsed = spec_video_raw_info(*obj)->0;
            assert(spec_negotiated(
                *old(self),
                *self,
                parsed.0,
                parsed.1,
                parsed.2,
                fixate,
                r,
            ));
        }
        r
    }
}

} // verus!

verus! {

impl StreamCore {
    /// Everything but the buffer slots agrees.
    pub open spec fn same_except_buffers(self, post: StreamCore) -> bool {
        post == (StreamCore { buffers: post.buffers, ..self })
    }

    /// Everything but the buffer slots and the hand-off queue agrees, and
    /// the queue keeps its capacity.
    pub open spec fn same_except_buffers_and_queue(self, post: StreamCore) -> bool {
        &&& post == (StreamCore { buffers: post.buffers, queue: post.queue, ..self })
        &&& process_queue_capacity(post.queue) == process_queue_capacity(self.queue)
    }
}

/// Effect of one dequeue call: nothing unless the transport streams and
/// this side drives; otherwise the first free-pool buffer is claimed for
/// the producer, provided it carries a user handle — a buffer without one
/// is never handed out.
pub open spec fn spec_dequeued(
    pre: StreamCore,
    post: StreamCore,
    r: Option<(BufferHandle, BufferUserHandle)>,
) -> bool {
    if !(pre.phase is Streaming) || !pre.driving {
        post == pre && r is None
    } else {
        match spec_first_available(pre.buffers@) {
            None => post == pre && r is None,
            Some(k) => match pre.buffers@[k].user_handle {
                None => post == pre && r is None,
                Some(u) => {
                    &&& r == Some((pre.buffers@[k].handle, u))
                    &&& post.buffers@ == pre.buffers@.update(
                        k,
                        BufferSlot { loc: BufferLocation::Producer, ..pre.buffers@[k] },
                    )
                    &&& pre.same_except_buffers(post)
                },
            },
        }
    }
}

/// The queueing precondition: the caller may queue only a buffer it
/// currently holds, claimed by a dequeue and not yet queued again.
pub open spec fn spec_queue_allowed(s: StreamCore, handle: BufferHandle) -> bool {
    match spec_find_slot(s.buffers@, handle.spec_raw()) {
        Some(k) => s.buffers@[k].loc is Producer,
        None => false,
    }
}

/// Effect of one queue-for-processing call: a no-op when this side does
/// not drive; a distinct backpressure failure, changing nothing, when the
/// queue is full; otherwise the identifier joins the queue and the buffer
/// is marked queued.
pub open spec fn spec_queue_transition(
    pre: StreamCore,
    post: StreamCore,
    handle: BufferHandle,
    r: Result<(), StreamError>,
) -> bool {
    if !pre.driving {
        post == pre && r is Ok
    } else if pre.queue_view().len() >= MAX_PROCESS_BUFFERS {
        &&& r == Err::<(), StreamError>(StreamError::Backpressure)
        &&& post.buffers@ == pre.buffers@
        &&& post.queue_view() == pre.queue_view()
        &&& pre.same_except_buffers_and_queue(post)
    } else {
        match spec_find_slot(pre.buffers@, handle.spec_raw()) {
            Some(k) => {
                &&& r is Ok
                &&& post.queue_view() == pre.queue_view().push(handle.spec_raw())
                &&& post.buffers@ == pre.buffers@.update(
                    k,
                    BufferSlot { loc: BufferLocation::Queued, ..pre.buffers@[k] },
                )
                &&& pre.same_except_buffers_and_queue(post)
            },
            None => false,
        }
    }
}

impl StreamCore {
    /// Claims a buffer for the producer.
    ///
    /// Returns a buffer only while the transport reports the stream
    /// streaming and this side driving, and only a buffer whose user
    /// handle was stamped by an earlier add event and not yet cleared: a
    /// pool buffer without one is a defect and reads as "no buffer
    /// available".
    pub fn dequeue_buffer(&mut self) -> (r: Option<(BufferHandle, BufferUserHandle)>)
        requires
            old(self).wf(),
        ensures
            final(self).wf(),
            spec_dequeued(*old(self), *final(self), r),
            r matches Some((h, u)) ==> exists|k: int|
                0 <= k < old(self).buffers@.len() && #[trigger] old(self).buffers@[k].handle == h
                    && old(self).buffers@[k].user_handle == Some(u),
    {
        if !matches!(self.phase, StreamPhase::Streaming) || !self.driving {
            return None;
        }
        let k = match self.first_available() {
            None => {
                return None;
            },
            Some(k) => k,
        };
        let user = match self.buffers[k].user_handle {
            None => {
                // Defect: a pool buffer with no user handle; never hand it out.
                return None;
            },
            Some(u) => u,
        };
        let handle = self.buffers[k].handle;
        let ghost pre = *self;
        let slot = &mut self.buffers[k];
        slot.loc = BufferLocation::Producer;
        proof {
            let updated = self.buffers@;
            assert(updated == pre.buffers@.update(
                k as int,
                BufferSlot { loc: BufferLocation::Producer, ..pre.buffers@[k as int] },
            ));
            assert forall|i: int|
                0 <= i < self.queue_view().len() implies match spec_find_slot(
                self.buffers@,
                #[trigger] self.queue_view()[i],
            ) {
                Some(j) => self.buffers@[j].loc is Queued,
                None => true,
            } by {
                let q = self.queue_view()[i];
                assert(pre.queue_view()[i] == q);
                lemma_find_slot_update(
                    pre.buffers@,
                    k as int,
                    BufferSlot { loc: BufferLocation::Producer, ..pre.buffers@[k as int] },
                    q,
                );
                lemma_find_slot_index(pre.buffers@, q);
                match spec_find_slot(pre.buffers@, q) {
                    Some(j) => {
                        assert(pre.buffers@[j].loc is Queued);
                        assert(j != k as int);
                        assert(self.buffers@[j] == pre.buffers@[j]);
                    },
                    None => {},
                }
            }
            assert(0 <= k < pre.buffers@.len() && pre.buffers@[k as int].handle == handle
                && pre.buffers@[k as int].user_handle == Some(user));
        }
        Some((handle, user))
    }

    /// Queues a producer-held buffer for processing.
    ///
    /// While this side drives, the buffer joins the bounded hand-off
    /// queue; a full queue is backpressure, reported as a distinct
    /// failure and changing nothing. While this side does not drive the
    /// call does nothing and succeeds.
    pub fn queue_buffer_process(&mut self, handle: BufferHandle) -> (r: Result<(), StreamError>)
        requires
            old(self).wf(),
            spec_queue_allowed(*old(self), handle),
        ensures
            final(self).wf(),
            spec_queue_transition(*old(self), *final(self), handle, r),
    {
        if !self.driving {
            return Ok(());
        }
        let ghost pre = *self;
        let pushed = process_queue_push(&mut self.queue, handle.as_raw());
        if !pushed {
            return Err(StreamError::Backpressure);
        }
        let k = match self.find_slot(handle.as_raw()) {
            Some(k) => k,
            None => {
                proof {
                    assert(false);
                }
                return Ok(());
            },
        };
        let slot = &mut self.buffers[k];
        slot.loc = BufferLocation::Queued;
        proof {
            let raw = handle.spec_raw();
            let newslot = BufferSlot { loc: BufferLocation::Queued, ..pre.buffers@[k as int] };
            assert(self.buffers@ == pre.buffers@.update(k as int, newslot));
            assert(self.queue_view() == pre.queue_view().push(raw));
            // The queued identifier was not in the queue: its slot was held
            // by the producer, while queued identifiers name queued slots.
            assert forall|i: int|
                0 <= i < pre.queue_view().len() implies #[trigger] pre.queue_view()[i] != raw by {
                if pre.queue_view()[i] == raw {
                    assert(pre.buffers@[k as int].loc is Queued);
                }
            }
            assert forall|i: int, j: int|
                0 <= i < j < self.queue_view().len() implies self.queue_view()[i]
                    != self.queue_view()[j] by {}
            assert forall|i: int|
                0 <= i < self.queue_view().len() implies match spec_find_slot(
                self.buffers@,
                #[trigger] self.queue_view()[i],
            ) {
                Some(j) => self.buffers@[j].loc is Queued,
                None => true,
            } by {
                let q = self.queue_view()[i];
                lemma_find_slot_update(pre.buffers@, k as int, newslot, q);
                if i < pre.queue_view().len() {
                    assert(pre.queue_view()[i] == q);
                    lemma_find_slot_index(pre.buffers@, q);
                    match spec_find_slot(pre.buffers@, q) {
                        Some(j) => {
                            assert(pre.buffers@[j].loc is Queued);
                            assert(j != k as int);
                            assert(self.buffers@[j] == pre.buffers@[j]);
                        },
                        None => {},
                    }
                } else {
                    assert(q == raw);
                    assert(spec_find_slot(pre.buffers@, raw) == Some(k as int));
                    assert(self.buffers@[k as int].loc is Queued);
                }
            }
        }
        Ok(())
    }
}

/// Law: no buffer is queued for processing twice before being dequeued
/// anew. Once a queue call has accepted a buffer, the queueing
/// precondition no longer holds of it, and only a fresh dequeue
/// re-establishes it.
pub proof fn lemma_no_double_queue(
    pre: StreamCore,
    post: StreamCore,
    handle: BufferHandle,
    r: Result<(), StreamError>,
)
    requires
        pre.wf(),
        pre.driving,
        pre.queue_view().len() < MAX_PROCESS_BUFFERS,
        spec_queue_allowed(pre, handle),
        spec_queue_transition(pre, post, handle, r),
    ensures
        !spec_queue_allowed(post, handle),
{
    let raw = handle.spec_raw();
    let k = spec_find_slot(pre.buffers@, raw)->0;
    lemma_find_slot_index(pre.buffers@, raw);
    lemma_find_slot_update(
        pre.buffers@,
        k,
        BufferSlot { loc: BufferLocation::Queued, ..pre.buffers@[k] },
        raw,
    );
}

/// Law: the hand-off queue never holds more entries than the backpressure
/// bound it was created with.
pub proof fn lemma_backpressure_bound(s: StreamCore)
    requires
        s.wf(),
    ensures
        s.queue_view().len() <= MAX_PROCESS_BUFFERS,
{
}

} // verus!

verus! {

/// The data block stamped from one exported plane.
pub open spec fn spec_data_from_plane(plane: BufferPlaneInfo, is_dma_buf: bool) -> DataBlock {
    DataBlock {
        data_type: if is_dma_buf {
            SPA_DATA_DmaBuf
        } else {
            SPA_DATA_MemFd
        },
        fd: plane.fd,
        mapoffset: plane.offset,
        maxsize: plane.size,
        chunk_offset: plane.offset,
        chunk_size: plane.size,
        chunk_stride: plane.stride as i32,
    }
}

/// The data block of a buffer marked invalid, so the transport reads no
/// garbage through it.
pub open spec fn spec_invalid_data() -> DataBlock {
    DataBlock {
        data_type: SPA_DATA_Invalid,
        fd: -1i64,
        mapoffset: 0,
        maxsize: 0,
        chunk_offset: 0,
        chunk_size: 0,
        chunk_stride: 0,
    }
}

/// The slot appended by one add-buffer event, given the backend's answer:
/// a valid slot stamped from the reported planes, or — when the backend
/// failed or reported a plane count that does not match the buffer — an
/// invalid slot with no user handle.
pub open spec fn spec_added_slot(
    slot: BufferSlot,
    handle: BufferHandle,
    n_datas: usize,
    metas: Seq<MetaBlock>,
    info: Option<BufferInfo>,
    valid: bool,
) -> bool {
    &&& slot.handle == handle
    &&& slot.metas@ == metas
    &&& slot.loc is Transport
    &&& slot.datas@.len() == n_datas
    &&& match info {
        Some(inf) => if inf.planes@.len() == n_datas {
            &&& valid
            &&& slot.user_handle == Some(inf.user_handle)
            &&& forall|i: int|
                0 <= i < n_datas ==> #[trigger] slot.datas@[i] == spec_data_from_plane(
                    inf.planes@[i],
                    inf.is_dma_buf,
                )
        } else {
            &&& !valid
            &&& slot.user_handle is None
            &&& forall|i: int| 0 <= i < n_datas ==> #[trigger] slot.datas@[i] == spec_invalid_data()
        },
        None => {
            &&& !valid
            &&& slot.user_handle is None
            &&& forall|i: int| 0 <= i < n_datas ==> #[trigger] slot.datas@[i] == spec_invalid_data()
        },
    }
}

/// Effect of one add-buffer event.
pub open spec fn spec_added(
    pre: StreamCore,
    post: StreamCore,
    handle: BufferHandle,
    n_datas: usize,
    metas: Seq<MetaBlock>,
    info: Option<BufferInfo>,
    valid: bool,
) -> bool {
    &&& post.buffers@.len() == pre.buffers@.len() + 1
    &&& post.buffers@.take(pre.buffers@.len() as int) == pre.buffers@
    &&& spec_added_slot(post.buffers@.last(), handle, n_datas, metas, info, valid)
    &&& pre.same_except_buffers(post)
}

/// Effect of one remove-buffer event: the slot leaves the pool, and the
/// backend's free callback runs exactly when the buffer carried a user
/// handle.
pub open spec fn spec_removed(
    pre: StreamCore,
    post: StreamCore,
    handle: BufferHandle,
    r: bool,
) -> bool {
    match spec_find_slot(pre.buffers@, handle.spec_raw()) {
        None => post == pre && !r,
        Some(k) => {
            &&& post.buffers@ == pre.buffers@.remove(k)
            &&& pre.same_except_buffers(post)
            &&& r == (pre.buffers@[k].user_handle is Some)
        },
    }
}

/// The metadata blocks of a processed buffer: the header block, where the
/// buffer has one large enough, carries the timestamp and the frame's
/// sequence number; the cursor block, where present, is filled from the
/// backend's snapshot; every other block is untouched.
pub open spec fn spec_metas_processed(
    pre_metas: Seq<MetaBlock>,
    post_metas: Seq<MetaBlock>,
    pts: i64,
    seq: u64,
    id_pre: u32,
    id_post: u32,
    cursor: Option<BufferCursorInfo>,
) -> bool {
    &&& post_metas.len() == pre_metas.len()
    &&& match spec_find_meta(pre_metas, SPA_META_Header, SPA_META_HEADER_SIZE) {
        Some(hi) => post_metas[hi] == (MetaBlock {
            data: MetaData::Header(HeaderMeta { flags: 0, offset: 0, pts, dts_offset: 0, seq }),
            ..pre_metas[hi]
        }),
        None => true,
    }
    &&& match spec_find_meta(pre_metas, SPA_META_Cursor, SPA_META_CURSOR_SIZE) {
        Some(ci) => match pre_metas[ci].data {
            MetaData::Cursor(c_pre) => {
                &&& post_metas[ci].meta_type == pre_metas[ci].meta_type
                &&& post_metas[ci].size == pre_metas[ci].size
                &&& post_metas[ci].data matches MetaData::Cursor(c_post)
                    && spec_cursor_after_fill(c_pre, c_post, id_pre, id_post, cursor)
            },
            _ => post_metas[ci] == pre_metas[ci] && id_post == id_pre,
        },
        None => id_post == id_pre,
    }
    &&& forall|i: int|
        0 <= i < pre_metas.len() && spec_find_meta(pre_metas, SPA_META_Header, SPA_META_HEADER_SIZE)
            != Some(i) && spec_find_meta(pre_metas, SPA_META_Cursor, SPA_META_CURSOR_SIZE) != Some(
            i,
        ) ==> #[trigger] post_metas[i] == pre_metas[i]
}

/// The frame sequence number after one processed frame.
pub open spec fn spec_next_seq(seq: u64) -> u64 {
    if seq == u64::MAX {
        0u64
    } else {
        (seq + 1) as u64
    }
}

/// Effect of processing the queued buffer in slot `k`: its header and
/// cursor blocks are written, the frame counter advances, and the buffer
/// returns to the transport.
pub open spec fn spec_processed(
    pre: StreamCore,
    post: StreamCore,
    k: int,
    pts: i64,
    cursor: Option<BufferCursorInfo>,
    r: ProcessOutcome,
) -> bool {
    &&& 0 <= k < pre.buffers@.len()
    &&& r == ProcessOutcome::Processed(pre.buffers@[k].handle)
    &&& post.seq == spec_next_seq(pre.seq)
    &&& post.queue_view() == pre.queue_view().skip(1)
    &&& post.buffers@.len() == pre.buffers@.len()
    &&& forall|i: int|
        0 <= i < pre.buffers@.len() && i != k ==> #[trigger] post.buffers@[i] == pre.buffers@[i]
    &&& post.buffers@[k].handle == pre.buffers@[k].handle
    &&& post.buffers@[k].user_handle == pre.buffers@[k].user_handle
    &&& post.buffers@[k].datas@ == pre.buffers@[k].datas@
    &&& post.buffers@[k].loc is Transport
    &&& spec_metas_processed(
        pre.buffers@[k].metas@,
        post.buffers@[k].metas@,
        pts,
        pre.seq,
        pre.cursor_id,
        post.cursor_id,
        cursor,
    )
    &&& post == (StreamCore {
        buffers: post.buffers,
        queue: post.queue,
        seq: post.seq,
        cursor_id: post.cursor_id,
        ..pre
    })
    &&& process_queue_capacity(post.queue) == process_queue_capacity(pre.queue)
}

/// Everything one process callback may do: an empty queue is a
/// scheduling anomaly and processes nothing; a queued identifier whose
/// buffer was removed while it waited processes nothing; otherwise the
/// oldest queued buffer is filled and handed back.
pub open spec fn spec_process_outcome(
    pre: StreamCore,
    post: StreamCore,
    pts: i64,
    r: ProcessOutcome,
) -> bool {
    &&& pre.queue_view().len() == 0 ==> r is Unscheduled && post.buffers@ == pre.buffers@
        && post.queue_view() == pre.queue_view() && pre.same_except_buffers_and_queue(post)
    &&& pre.queue_view().len() > 0 ==> {
        &&& post.queue_view() == pre.queue_view().skip(1)
        &&& match spec_find_slot(pre.buffers@, pre.queue_view()[0]) {
            None => r is Broken && post.buffers@ == pre.buffers@
                && pre.same_except_buffers_and_queue(post),
            Some(k) => exists|cursor: Option<BufferCursorInfo>|
                spec_processed(pre, post, k, pts, cursor, r),
        }
    }
}

/// Everything one add-buffer event may do, for some answer of the
/// backend.
pub open spec fn spec_add_outcome(
    pre: StreamCore,
    post: StreamCore,
    handle: BufferHandle,
    n_datas: usize,
    metas: Seq<MetaBlock>,
    valid: bool,
) -> bool {
    exists|info: Option<BufferInfo>| spec_added(pre, post, handle, n_datas, metas, info, valid)
}

/// Builds the data blocks of a valid buffer from its planes.
fn datas_from_planes(planes: &Vec<BufferPlaneInfo>, is_dma_buf: bool) -> (r: Vec<DataBlock>)
    ensures
        r@.len() == planes@.len(),
        forall|i: int|
            0 <= i < planes@.len() ==> #[trigger] r@[i] == spec_data_from_plane(
                planes@[i],
                is_dma_buf,
            ),
{
    let data_type: u32 = if is_dma_buf {
        SPA_DATA_DmaBuf
    } else {
        SPA_DATA_MemFd
    };
    let mut r: Vec<DataBlock> = Vec::new();
    let mut i: usize = 0;
    while i < planes.len()
        invariant
            i <= planes@.len(),
            r@.len() == i,
            data_type == (if is_dma_buf {
                SPA_DATA_DmaBuf
            } else {
                SPA_DATA_MemFd
            }),
            forall|j: int|
                0 <= j < i as int ==> #[trigger] r@[j] == spec_data_from_plane(
                    planes@[j],
                    is_dma_buf,
                ),
        decreases planes@.len() - i,
    {
        let plane = planes[i];
        r.push(
            DataBlock {
                data_type,
                fd: plane.fd,
                mapoffset: plane.offset,
                maxsize: plane.size,
                chunk_offset: plane.offset,
                chunk_size: plane.size,
                chunk_stride: #[verifier::truncate] (plane.stride as i32),
            },
        );
        i = i + 1;
    }
    r
}

/// Builds the data blocks of a buffer marked invalid.
fn invalid_datas(n: usize) -> (r: Vec<DataBlock>)
    ensures
        r@.len() == n,
        forall|i: int| 0 <= i < n ==> #[trigger] r@[i] == spec_invalid_data(),
{
    let mut r: Vec<DataBlock> = Vec::new();
    let mut i: usize = 0;
    while i < n
        invariant
            i <= n,
            r@.len() == i,
            forall|j: int| 0 <= j < i as int ==> #[trigger] r@[j] == spec_invalid_data(),
        decreases n - i,
    {
        r.push(
            DataBlock {
                data_type: SPA_DATA_Invalid,
                fd: -1,
                mapoffset: 0,
                maxsize: 0,
                chunk_offset: 0,
                chunk_size: 0,
                chunk_stride: 0,
            },
        );
        i = i + 1;
    }
    r
}

impl StreamCore {
    /// Handles an add-buffer event from the transport.
    ///
    /// The transport fires exactly one add event per physical buffer, for
    /// a slot it has not added before and that no stale queue entry
    /// names; that is what the preconditions state. The backend
    /// allocates the GPU-side resource; on success the
    /// buffer's data blocks are stamped from the reported planes and its
    /// user handle recorded. When the backend fails, or reports a plane
    /// count that does not match the buffer, the buffer is marked invalid
    /// instead — its data blocks carry no descriptors and it will never be
    /// handed to the producer.
    pub fn on_add_buffer<B: StreamBackend>(
        &mut self,
        backend: &mut B,
        handle: BufferHandle,
        n_datas: usize,
        metas: Vec<MetaBlock>,
    ) -> (valid: bool)
        requires
            old(self).wf(),
            handle.spec_raw() != 0,
            spec_find_slot(old(self).buffers@, handle.spec_raw()) is None,
            forall|i: int|
                0 <= i < old(self).queue_view().len() ==> #[trigger] old(self).queue_view()[i]
                    != handle.spec_raw(),
        ensures
            final(self).wf(),
            spec_add_outcome(*old(self), *final(self), handle, n_datas, metas@, valid),
    {
        let ghost pre = *self;
        let ghost gmetas = metas@;
        let info = backend.add_buffer();
        let ghost ginfo = info;
        let slot: BufferSlot = match info {
            Some(inf) => {
                if inf.planes.len() == n_datas {
                    BufferSlot {
                        handle,
                        user_handle: Some(inf.user_handle),
                        datas: datas_from_planes(&inf.planes, inf.is_dma_buf),
                        metas,
                        loc: BufferLocation::Transport,
                    }
                } else {
                    // Plane-count defect: mark the buffer invalid.
                    BufferSlot {
                        handle,
                        user_handle: None,
                        datas: invalid_datas(n_datas),
                        metas,
                        loc: BufferLocation::Transport,
                    }
                }
            },
            None => BufferSlot {
                handle,
                user_handle: None,
                datas: invalid_datas(n_datas),
                metas,
                loc: BufferLocation::Transport,
            },
        };
        let valid = slot.user_handle.is_some();
        let ghost gslot = slot;
        self.buffers.push(slot);
        proof {
            assert(self.buffers@ == pre.buffers@.push(gslot));
            assert(self.buffers@.take(pre.buffers@.len() as int) =~= pre.buffers@);
            lemma_find_slot_index(pre.buffers@, handle.spec_raw());
            assert forall|i: int|
                0 <= i < self.queue_view().len() implies match spec_find_slot(
                self.buffers@,
                #[trigger] self.queue_view()[i],
            ) {
                Some(j) => self.buffers@[j].loc is Queued,
                None => true,
            } by {
                let q = self.queue_view()[i];
                assert(pre.queue_view()[i] == q);
                lemma_find_slot_push(pre.buffers@, gslot, q);
                lemma_find_slot_index(pre.buffers@, q);
                match spec_find_slot(pre.buffers@, q) {
                    Some(j) => {
                        assert(self.buffers@[j] == pre.buffers@[j]);
                    },
                    None => {
                        assert(q != handle.spec_raw());
                    },
                }
            }
            assert(spec_added(pre, *self, handle, n_datas, gmetas, ginfo, valid));
        }
        valid
    }

    /// Handles a remove-buffer event from the transport.
    ///
    /// The slot leaves the pool; when the buffer carried a user handle the
    /// backend's free callback runs with it. A buffer never added, or one
    /// marked invalid at add time, frees nothing.
    pub fn on_remove_buffer<B: StreamBackend>(
        &mut self,
        backend: &mut B,
        handle: BufferHandle,
    ) -> (r: bool)
        requires
            old(self).wf(),
        ensures
            final(self).wf(),
            spec_removed(*old(self), *final(self), handle, r),
    {
        let k = match self.find_slot(handle.as_raw()) {
            None => {
                return false;
            },
            Some(k) => k,
        };
        let ghost pre = *self;
        let slot = self.buffers.remove(k);
        proof {
            assert(self.buffers@ == pre.buffers@.remove(k as int));
            assert forall|i: int, j: int|
                0 <= i < j < self.buffers@.len() implies #[trigger] self.buffers@[i].handle.spec_raw()
                    != #[trigger] self.buffers@[j].handle.spec_raw() by {
                assert(self.buffers@[i] == (if i < k as int {
                    pre.buffers@[i]
                } else {
                    pre.buffers@[i + 1]
                }));
                assert(self.buffers@[j] == (if j < k as int {
                    pre.buffers@[j]
                } else {
                    pre.buffers@[j + 1]
                }));
            }
            assert forall|i: int|
                0 <= i < self.buffers@.len() implies #[trigger] self.buffers@[i].handle.spec_raw()
                    != 0 by {
                assert(self.buffers@[i] == (if i < k as int {
                    pre.buffers@[i]
                } else {
                    pre.buffers@[i + 1]
                }));
            }
            assert forall|i: int|
                0 <= i < self.buffers@.len() implies (!(#[trigger] self.buffers@[i].loc
                    is Transport) ==> self.buffers@[i].user_handle is Some) by {
                assert(self.buffers@[i] == (if i < k as int {
                    pre.buffers@[i]
                } else {
                    pre.buffers@[i + 1]
                }));
            }
            assert forall|i: int|
                0 <= i < self.queue_view().len() implies match spec_find_slot(
                self.buffers@,
                #[trigger] self.queue_view()[i],
            ) {
                Some(j) => self.buffers@[j].loc is Queued,
                None => true,
            } by {
                let q = self.queue_view()[i];
                assert(pre.queue_view()[i] == q);
                lemma_find_slot_remove(pre.buffers@, k as int, q);
                lemma_find_slot_index(pre.buffers@, q);
                match spec_find_slot(pre.buffers@, q) {
                    Some(j) => {
                        if j != k as int {
                            if j < k as int {
                                assert(self.buffers@[j] == pre.buffers@[j]);
                            } else {
                                assert(self.buffers@[j - 1] == pre.buffers@[j]);
                            }
                        }
                    },
                    None => {},
                }
            }
        }
        match slot.user_handle {
            Some(user) => {
                backend.remove_buffer(user);
                true
            },
            None => false,
        }
    }

    /// Handles one process callback from the transport.
    ///
    /// Takes the oldest queued buffer; none queued is a scheduling
    /// anomaly and processes nothing. The backend fills the frame, a
    /// cursor snapshot it returns is written into the buffer's cursor
    /// block, the header block gets the timestamp and frame number, and
    /// the buffer goes back to the transport.
    pub fn on_process<B: StreamBackend>(&mut self, backend: &mut B, pts: i64) -> (r:
        ProcessOutcome)
        requires
            old(self).wf(),
        ensures
            final(self).wf(),
            spec_process_outcome(*old(self), *final(self), pts, r),
    {
        let ghost pre = *self;
        let popped = process_queue_pop(&mut self.queue);
        let raw = match popped {
            None => {
                return ProcessOutcome::Unscheduled;
            },
            Some(raw) => raw,
        };
        let k = match self.find_slot(raw) {
            None => {
                // The queued identifier names no live buffer: it was
                // removed while queued. Nothing to process.
                return ProcessOutcome::Broken;
            },
            Some(k) => k,
        };
        let user = match self.buffers[k].user_handle {
            Some(u) => u,
            None => {
                proof {
                    assert(pre.queue_view()[0] == raw);
                    assert(false);
                }
                return ProcessOutcome::Broken;
            },
        };
        let cursor_idx = find_meta(&self.buffers[k].metas, SPA_META_Cursor, SPA_META_CURSOR_SIZE);
        let header_idx = find_meta(&self.buffers[k].metas, SPA_META_Header, SPA_META_HEADER_SIZE);
        let cbs = backend.process_buffer(user, cursor_idx.is_some());
        let ghost cursor_snapshot = cbs.add_cursor;
        if let Some(ci) = cursor_idx {
            let slot = &mut self.buffers[k];
            let block = &mut slot.metas[ci];
            match &mut block.data {
                MetaData::Cursor(c) => {
                    fill_cursor_meta(&mut self.cursor_id, c, cbs.add_cursor);
                },
                _ => {},
            }
        }
        if let Some(hi) = header_idx {
            let seq_now = self.seq;
            let slot = &mut self.buffers[k];
            let block = &mut slot.metas[hi];
            block.data = MetaData::Header(
                HeaderMeta { flags: 0, offset: 0, pts, dts_offset: 0, seq: seq_now },
            );
        }
        self.seq = if self.seq == u64::MAX {
            0
        } else {
            self.seq + 1
        };
        let slot = &mut self.buffers[k];
        slot.loc = BufferLocation::Transport;
        let handle = self.buffers[k].handle;
        proof {
            assert(pre.queue_view()[0] == raw);
            assert(spec_find_slot(pre.buffers@, raw) == Some(k as int));
            assert(self.queue_view() == pre.queue_view().skip(1));
            assert forall|i: int|
                0 <= i < pre.buffers@.len() && i != k as int implies #[trigger] self.buffers@[i]
                    == pre.buffers@[i] by {}
            assert forall|i: int, j: int|
                0 <= i < j < self.buffers@.len() implies #[trigger] self.buffers@[i].handle.spec_raw()
                    != #[trigger] self.buffers@[j].handle.spec_raw() by {
                assert(self.buffers@[i].handle == pre.buffers@[i].handle);
                assert(self.buffers@[j].handle == pre.buffers@[j].handle);
            }
            assert forall|i: int|
                0 <= i < self.queue_view().len() implies match spec_find_slot(
                self.buffers@,
                #[trigger] self.queue_view()[i],
            ) {
                Some(j) => self.buffers@[j].loc is Queued,
                None => true,
            } by {
                let q = self.queue_view()[i];
                assert(pre.queue_view()[i + 1] == q);
                assert forall|m: int|
                    0 <= m < self.buffers@.len() implies #[trigger] self.buffers@[m].handle
                        == pre.buffers@[m].handle by {}
                lemma_find_slot_same_handles(pre.buffers@, self.buffers@, q);
                lemma_find_slot_index(pre.buffers@, q);
                match spec_find_slot(pre.buffers@, q) {
                    Some(j) => {
                        assert(pre.buffers@[j].loc is Queued);
                        if j == k as int {
                            assert(q == pre.buffers@[k as int].handle.spec_raw());
                            assert(raw == pre.buffers@[k as int].handle.spec_raw());
                            assert(pre.queue_view()[0] != pre.queue_view()[i + 1]);
                            assert(false);
                        }
                        assert(self.buffers@[j] == pre.buffers@[j]);
                    },
                    None => {},
                }
            }
            assert(spec_metas_processed(
                pre.buffers@[k as int].metas@,
                self.buffers@[k as int].metas@,
                pts,
                pre.seq,
                pre.cursor_id,
                self.cursor_id,
                cursor_snapshot,
            ));
            assert(spec_processed(pre, *self, k as int, pts, cursor_snapshot, ProcessOutcome::Processed(handle)));
        }
        ProcessOutcome::Processed(handle)
    }
}

/// Searching two slot rows that agree on every handle finds the same
/// index.
proof fn lemma_find_slot_same_handles(a: Seq<BufferSlot>, b: Seq<BufferSlot>, raw: usize)
    requires
        a.len() == b.len(),
        forall|i: int| 0 <= i < a.len() ==> #[trigger] b[i].handle == a[i].handle,
    ensures
        spec_find_slot(a, raw) == spec_find_slot(b, raw),
    decreases a.len(),
{
    if a.len() > 0 {
        assert(b[0].handle == a[0].handle);
        assert forall|i: int|
            0 <= i < a.skip(1).len() implies #[trigger] b.skip(1)[i].handle == a.skip(
            1,
        )[i].handle by {
            assert(a.skip(1)[i] == a[i + 1]);
            assert(b.skip(1)[i] == b[i + 1]);
        }
        lemma_find_slot_same_handles(a.skip(1), b.skip(1), raw);
    }
}

/// Law: however many times termination of a stream is requested, the
/// owner's terminate callback is asked for exactly once: on the first
/// request, and never on a later one.
pub proof fn lemma_terminate_fires_once(
    s0: StreamCore,
    s1: StreamCore,
    s2: StreamCore,
    f1: bool,
    f2: bool,
)
    requires
        !s0.terminated,
        StreamCore::spec_terminate_transition(s0, s1, f1),
        StreamCore::spec_terminate_transition(s1, s2, f2),
    ensures
        f1,
        !f2,
{
}

} // verus!
