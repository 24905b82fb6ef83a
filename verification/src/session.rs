//! The session actor: one connection to the media service.
//!
//! A session owns a monotonically increasing stream-id counter and a
//! concurrent registry from stream id to the stream's slot. The registry is
//! a concurrent map from an outside crate, since the embedding process
//! looks ids up without serialising unrelated streams; its contents are
//! named by `registry_view`, and the wrappers state what each call does to
//! that view. Stream messages are dispatched by id through this actor, and
//! a message for a stream that is gone — or any message after session
//! teardown — fails cleanly instead of touching freed state.

use crate::backend::StreamBackend;
use crate::backend::StreamInfo;
use crate::buffer::BufferHandle;
use crate::buffer::BufferUserHandle;
use crate::buffer::MetaBlock;
use crate::pod::PodObject;
use crate::stream::ParamChangeAction;
use crate::stream::ProcessOutcome;
use crate::stream::StreamCore;
use crate::stream::StreamError;
use crate::stream::TransportState;
use crate::stream::spec_add_outcome;
use crate::stream::spec_dequeued;
use crate::stream::spec_find_slot;
use crate::stream::spec_fresh_stream;
use crate::stream::spec_is_format_pod_offers;
use crate::stream::spec_param_outcome;
use crate::stream::spec_process_outcome;
use crate::stream::spec_queue_allowed;
use crate::stream::spec_queue_transition;
use crate::stream::spec_removed;
use vstd::prelude::*;

verus! {

/// The registry's key-value store, from an outside crate.
#[verifier::external_type_specification]
#[verifier::external_body]
#[verifier::reject_recursive_types(K)]
#[verifier::reject_recursive_types(V)]
#[verifier::reject_recursive_types(S)]
pub struct ExDashMap<K, V, S>(dashmap::DashMap<K, V, S>);

/// The registry's concrete shape: stream id to slot index.
pub type Registry = dashmap::DashMap<u64, usize>;

/// The entries of the stream registry.
pub uninterp spec fn registry_view(m: Registry) -> Map<u64, usize>;

/// A registry with no entries.
pub open spec fn spec_empty_registry() -> Map<u64, usize> {
    Map::empty()
}

/// Relies on dashmap::DashMap::new: an empty map.
#[verifier::external_body]
fn registry_new() -> (m: Registry)
    ensures
        registry_view(m) == spec_empty_registry(),
{
    dashmap::DashMap::new()
}

/// Relies on dashmap::DashMap::insert: maps the key to the value and
/// returns the value it replaced, if any.
#[verifier::external_body]
fn registry_insert(m: &mut Registry, key: u64, value: usize) -> (r: Option<usize>)
    ensures
        registry_view(*final(m)) == registry_view(*old(m)).insert(key, value),
        r == (if registry_view(*old(m)).dom().contains(key) {
            Some(registry_view(*old(m))[key])
        } else {
            None::<usize>
        }),
{
    m.insert(key, value)
}

/// Relies on dashmap::DashMap::remove: unmaps the key and returns the
/// value it was mapped to, if any.
#[verifier::external_body]
fn registry_remove(m: &mut Registry, key: u64) -> (r: Option<usize>)
    ensures
        registry_view(*final(m)) == registry_view(*old(m)).remove(key),
        r == (if registry_view(*old(m)).dom().contains(key) {
            Some(registry_view(*old(m))[key])
        } else {
            None::<usize>
        }),
{
    m.remove(&key).map(|kv| kv.1)
}

/// Relies on dashmap::DashMap::get: the value the key is mapped to, if
/// any.
#[verifier::external_body]
fn registry_get(m: &Registry, key: u64) -> (r: Option<usize>)
    ensures
        r == (if registry_view(*m).dom().contains(key) {
            Some(registry_view(*m)[key])
        } else {
            None::<usize>
        }),
{
    m.get(&key).map(|entry| *entry)
}

/// Relies on dashmap::DashMap::clear: unmaps everything.
#[verifier::external_body]
fn registry_clear(m: &mut Registry)
    ensures
        registry_view(*final(m)) == spec_empty_registry(),
{
    m.clear()
}

/// A failure surfaced by the session actor.
#[derive(Clone, Copy, Debug, PartialEq, Eq, Structural)]
pub enum SessionError {
    /// The session was torn down; the operation was not performed.
    Terminated,
    /// The stream-id counter is exhausted.
    IdsExhausted,
    /// No live stream has this id; the operation was not performed.
    StreamGone,
    /// The stream's hand-off queue is full.
    Backpressure,
}

/// The session actor's state.
pub struct SessionCore {
    /// Whether teardown was requested; afterwards nothing is created.
    pub terminated: bool,
    /// The next stream id to hand out; ids are never reused.
    pub next_stream_id: u64,
    /// The concurrent registry from stream id to slot index.
    pub registry: Registry,
    /// The stream slots; a slot outlives its registry entry as `None`.
    pub slots: Vec<Option<StreamCore>>,
}

/// The stream a live id names, if any.
pub open spec fn spec_stream_entry(s: SessionCore, id: u64) -> Option<StreamCore> {
    if registry_view(s.registry).dom().contains(id) && registry_view(s.registry)[id]
        < s.slots@.len() {
        s.slots@[registry_view(s.registry)[id] as int]
    } else {
        None
    }
}

/// Frame of a per-stream operation: the registry, the counters and every
/// other slot are untouched, and the stream stays live.
pub open spec fn spec_forward_frame(pre: SessionCore, post: SessionCore, id: u64) -> bool {
    &&& registry_view(post.registry) == registry_view(pre.registry)
    &&& post.next_stream_id == pre.next_stream_id
    &&& post.terminated == pre.terminated
    &&& post.slots@.len() == pre.slots@.len()
    &&& registry_view(pre.registry).dom().contains(id)
    &&& forall|i: int|
        0 <= i < pre.slots@.len() && i != registry_view(pre.registry)[id] as int
            ==> #[trigger] post.slots@[i] == pre.slots@[i]
    &&& spec_stream_entry(post, id) is Some
}

impl SessionCore {
    /// Well-formedness: every registered id names a live slot below the
    /// counter, no two ids share a slot, and every live stream is itself
    /// well-formed.
    pub open spec fn wf(self) -> bool {
        &&& forall|id: u64|
            #[trigger] registry_view(self.registry).dom().contains(id) ==> {
                &&& registry_view(self.registry)[id] < self.slots@.len()
                &&& self.slots@[registry_view(self.registry)[id] as int] is Some
                &&& id < self.next_stream_id
            }
        &&& forall|id1: u64, id2: u64|
            #[trigger] registry_view(self.registry).dom().contains(id1)
                && #[trigger] registry_view(self.registry).dom().contains(id2) && id1 != id2
                ==> registry_view(self.registry)[id1] != registry_view(self.registry)[id2]
        &&& forall|i: int|
            0 <= i < self.slots@.len() ==> match #[trigger] self.slots@[i] {
                Some(core) => core.wf(),
                None => true,
            }
    }

    /// Creates a fresh session actor with no streams.
    pub fn new() -> (s: SessionCore)
        ensures
            s.wf(),
            !s.terminated,
            s.next_stream_id == 0,
            registry_view(s.registry) == Map::<u64, usize>::empty(),
            s.slots@.len() == 0,
    {
        SessionCore {
            terminated: false,
            next_stream_id: 0,
            registry: registry_new(),
            slots: Vec::new(),
        }
    }

    /// Creates a stream: allocates the next id, registers the stream, and
    /// returns the id with the initial format offers to publish.
    ///
    /// After session teardown the call fails cleanly; nothing is created.
    pub fn create_stream(&mut self, info: StreamInfo) -> (r: Result<
        (u64, Vec<PodObject>),
        SessionError,
    >)
        requires
            old(self).wf(),
            forall|i: int|
                0 <= i < info.enum_formats@.len()
                    ==> #[trigger] info.enum_formats@[i].formats@.len() > 0,
        ensures
            final(self).wf(),
            old(self).terminated ==> r == Err::<(u64, Vec<PodObject>), SessionError>(
                SessionError::Terminated,
            ) && *final(self) == *old(self),
            !old(self).terminated && old(self).next_stream_id == u64::MAX ==> r == Err::<
                (u64, Vec<PodObject>),
                SessionError,
            >(SessionError::IdsExhausted) && *final(self) == *old(self),
            !old(self).terminated && old(self).next_stream_id < u64::MAX ==> {
                &&& r matches Ok(pair)
                &&& pair.0 == old(self).next_stream_id
                &&& final(self).next_stream_id == old(self).next_stream_id + 1
                &&& !final(self).terminated
                &&& registry_view(final(self).registry) == registry_view(
                    old(self).registry,
                ).insert(pair.0, old(self).slots@.len() as usize)
                &&& final(self).slots@.len() == old(self).slots@.len() + 1
                &&& final(self).slots@.take(old(self).slots@.len() as int) == old(self).slots@
                &&& final(self).slots@.last() matches Some(core) && spec_fresh_stream(core, info)
                &&& pair.1@.len() == info.enum_formats@.len()
                &&& spec_is_format_pod_offers(pair.1@, info)
            },
    {
        if self.terminated {
            return Err(SessionError::Terminated);
        }
        if self.next_stream_id == u64::MAX {
            return Err(SessionError::IdsExhausted);
        }
        let id = self.next_stream_id;
        self.next_stream_id = self.next_stream_id + 1;
        let (core, params) = StreamCore::new(info);
        let index = self.slots.len();
        let ghost pre = *old(self);
        self.slots.push(Some(core));
        let _ = registry_insert(&mut self.registry, id, index);
        proof {
            let view = registry_view(self.registry);
            assert(view == registry_view(pre.registry).insert(id, index));
            assert(self.slots@.take(pre.slots@.len() as int) =~= pre.slots@);
            assert forall|id2: u64| #[trigger] view.dom().contains(id2) implies {
                &&& view[id2] < self.slots@.len()
                &&& self.slots@[view[id2] as int] is Some
                &&& id2 < self.next_stream_id
            } by {
                if id2 != id {
                    assert(registry_view(pre.registry).dom().contains(id2));
                    assert(self.slots@[view[id2] as int] == pre.slots@[view[id2] as int]);
                }
            }
            assert forall|id1: u64, id2: u64|
                #[trigger] view.dom().contains(id1) && #[trigger] view.dom().contains(id2) && id1
                    != id2 implies view[id1] != view[id2] by {
                if id1 != id && id2 != id {
                    assert(registry_view(pre.registry).dom().contains(id1));
                    assert(registry_view(pre.registry).dom().contains(id2));
                } else if id1 == id {
                    assert(registry_view(pre.registry)[id2] < pre.slots@.len());
                } else {
                    assert(registry_view(pre.registry)[id1] < pre.slots@.len());
                }
            }
            assert forall|i: int| 0 <= i < self.slots@.len() implies match #[trigger] self.slots@[i] {
                Some(c) => c.wf(),
                None => true,
            } by {
                if i < pre.slots@.len() {
                    assert(self.slots@[i] == pre.slots@[i]);
                }
            }
        }
        Ok((id, params))
    }

    /// Tears the session down: every stream entry is dropped and nothing
    /// can be created afterwards. The embedding process then stops the
    /// event loop and joins its thread.
    pub fn terminate(&mut self)
        requires
            old(self).wf(),
        ensures
            final(self).wf(),
            final(self).terminated,
            registry_view(final(self).registry) == Map::<u64, usize>::empty(),
            final(self).slots@.len() == 0,
            final(self).next_stream_id == old(self).next_stream_id,
    {
        registry_clear(&mut self.registry);
        self.slots = Vec::new();
        self.terminated = true;
    }

    /// Requests termination of one stream. On the first request the
    /// stream's slot is reclaimed and the id unregistered; a later message
    /// for the same id fails cleanly.
    pub fn stream_terminate(&mut self, id: u64) -> (r: Result<bool, SessionError>)
        requires
            old(self).wf(),
        ensures
            final(self).wf(),
            match spec_stream_entry(*old(self), id) {
                None => r == Err::<bool, SessionError>(SessionError::StreamGone) && *final(self)
                    == *old(self),
                Some(core) => {
                    &&& r == Ok::<bool, SessionError>(!core.terminated)
                    &&& registry_view(final(self).registry) == registry_view(
                        old(self).registry,
                    ).remove(id)
                    &&& final(self).slots@ == old(self).slots@.update(
                        registry_view(old(self).registry)[id] as int,
                        None,
                    )
                    &&& final(self).next_stream_id == old(self).next_stream_id
                    &&& final(self).terminated == old(self).terminated
                },
            },
    {
        let index = match registry_get(&self.registry, id) {
            None => {
                return Err(SessionError::StreamGone);
            },
            Some(i) => i,
        };
        let ghost pre = *old(self);
        let mut fired = false;
        let slot = &mut self.slots[index];
        match slot {
            Some(core) => {
                fired = core.terminate();
            },
            None => {
                proof {
                    assert(false);
                }
            },
        }
        *slot = None;
        let _ = registry_remove(&mut self.registry, id);
        proof {
            let view = registry_view(self.registry);
            assert forall|id2: u64| #[trigger] view.dom().contains(id2) implies {
                &&& view[id2] < self.slots@.len()
                &&& self.slots@[view[id2] as int] is Some
                &&& id2 < self.next_stream_id
            } by {
                assert(registry_view(pre.registry).dom().contains(id2));
                assert(id2 != id);
                assert(registry_view(pre.registry)[id2] != registry_view(pre.registry)[id]);
                assert(self.slots@[view[id2] as int] == pre.slots@[view[id2] as int]);
            }
            assert forall|id1: u64, id2: u64|
                #[trigger] view.dom().contains(id1) && #[trigger] view.dom().contains(id2) && id1
                    != id2 implies view[id1] != view[id2] by {
                assert(registry_view(pre.registry).dom().contains(id1));
                assert(registry_view(pre.registry).dom().contains(id2));
            }
            assert forall|i: int| 0 <= i < self.slots@.len() implies match #[trigger] self.slots@[i] {
                Some(c) => c.wf(),
                None => true,
            } by {
                if i != index as int {
                    assert(self.slots@[i] == pre.slots@[i]);
                }
            }
        }
        Ok(fired)
    }
}

} // verus!

verus! {

/// One per-stream operation leaves the session well-formed: the registry
/// and counters are untouched, and only the addressed stream's slot is
/// replaced, by a well-formed stream.
proof fn lemma_forward_preserves(pre: SessionCore, post: SessionCore, id: u64, core: StreamCore)
    requires
        pre.wf(),
        core.wf(),
        registry_view(pre.registry).dom().contains(id),
        registry_view(post.registry) == registry_view(pre.registry),
        post.slots@ == pre.slots@.update(registry_view(pre.registry)[id] as int, Some(core)),
        post.next_stream_id == pre.next_stream_id,
        post.terminated == pre.terminated,
    ensures
        post.wf(),
        spec_forward_frame(pre, post, id),
        spec_stream_entry(post, id) == Some(core),
{
    let index = registry_view(pre.registry)[id] as int;
    assert(index < pre.slots@.len());
    assert forall|id2: u64| #[trigger] registry_view(post.registry).dom().contains(id2) implies {
        &&& registry_view(post.registry)[id2] < post.slots@.len()
        &&& post.slots@[registry_view(post.registry)[id2] as int] is Some
        &&& id2 < post.next_stream_id
    } by {
        assert(registry_view(pre.registry).dom().contains(id2));
        if registry_view(pre.registry)[id2] as int != index {
            assert(post.slots@[registry_view(pre.registry)[id2] as int] == pre.slots@[registry_view(
                pre.registry,
            )[id2] as int]);
        }
    }
    assert forall|i: int| 0 <= i < post.slots@.len() implies match #[trigger] post.slots@[i] {
        Some(c) => c.wf(),
        None => true,
    } by {
        if i != index {
            assert(post.slots@[i] == pre.slots@[i]);
        }
    }
}

impl SessionCore {
    /// Claims a buffer of the given stream for the producer.
    pub fn stream_dequeue_buffer(&mut self, id: u64) -> (r: Result<
        Option<(BufferHandle, BufferUserHandle)>,
        SessionError,
    >)
        requires
            old(self).wf(),
        ensures
            final(self).wf(),
            match spec_stream_entry(*old(self), id) {
                None => r == Err::<Option<(BufferHandle, BufferUserHandle)>, SessionError>(
                    SessionError::StreamGone,
                ) && *final(self) == *old(self),
                Some(core) => {
                    &&& spec_forward_frame(*old(self), *final(self), id)
                    &&& r matches Ok(res)
                    &&& spec_dequeued(core, spec_stream_entry(*final(self), id)->0, res)
                },
            },
    {
        let index = match registry_get(&self.registry, id) {
            None => {
                return Err(SessionError::StreamGone);
            },
            Some(i) => i,
        };
        let ghost pre = *old(self);
        let slot = &mut self.slots[index];
        let res = match slot {
            Some(core) => core.dequeue_buffer(),
            None => {
                proof {
                    assert(false);
                }
                return Err(SessionError::StreamGone);
            },
        };
        proof {
            lemma_forward_preserves(pre, *self, id, self.slots@[index as int]->0);
        }
        Ok(res)
    }

    /// Queues a producer-held buffer of the given stream for processing.
    pub fn stream_queue_buffer_process(&mut self, id: u64, handle: BufferHandle) -> (r: Result<
        (),
        SessionError,
    >)
        requires
            old(self).wf(),
            match spec_stream_entry(*old(self), id) {
                Some(core) => spec_queue_allowed(core, handle),
                None => true,
            },
        ensures
            final(self).wf(),
            match spec_stream_entry(*old(self), id) {
                None => r == Err::<(), SessionError>(SessionError::StreamGone) && *final(self)
                    == *old(self),
                Some(core) => {
                    &&& spec_forward_frame(*old(self), *final(self), id)
                    &&& spec_queue_transition(
                        core,
                        spec_stream_entry(*final(self), id)->0,
                        handle,
                        match r {
                            Ok(_) => Ok(()),
                            Err(_) => Err(StreamError::Backpressure),
                        },
                    )
                    &&& r is Err ==> r == Err::<(), SessionError>(SessionError::Backpressure)
                },
            },
    {
        let index = match registry_get(&self.registry, id) {
            None => {
                return Err(SessionError::StreamGone);
            },
            Some(i) => i,
        };
        let ghost pre = *old(self);
        let slot = &mut self.slots[index];
        let res = match slot {
            Some(core) => core.queue_buffer_process(handle),
            None => {
                proof {
                    assert(false);
                }
                return Err(SessionError::StreamGone);
            },
        };
        proof {
            lemma_forward_preserves(pre, *self, id, self.slots@[index as int]->0);
        }
        match res {
            Ok(_) => Ok(()),
            Err(StreamError::Backpressure) => Err(SessionError::Backpressure),
        }
    }

    /// Records the transport-assigned driving role for the given stream.
    pub fn stream_set_driving(&mut self, id: u64, driving: bool) -> (r: Result<(), SessionError>)
        requires
            old(self).wf(),
        ensures
            final(self).wf(),
            match spec_stream_entry(*old(self), id) {
                None => r == Err::<(), SessionError>(SessionError::StreamGone) && *final(self)
                    == *old(self),
                Some(core) => {
                    &&& spec_forward_frame(*old(self), *final(self), id)
                    &&& r is Ok
                    &&& spec_stream_entry(*final(self), id) == Some(
                        StreamCore { driving, ..core },
                    )
                },
            },
    {
        let index = match registry_get(&self.registry, id) {
            None => {
                return Err(SessionError::StreamGone);
            },
            Some(i) => i,
        };
        let ghost pre = *old(self);
        let slot = &mut self.slots[index];
        match slot {
            Some(core) => core.set_driving(driving),
            None => {
                proof {
                    assert(false);
                }
                return Err(SessionError::StreamGone);
            },
        };
        proof {
            lemma_forward_preserves(pre, *self, id, self.slots@[index as int]->0);
        }
        Ok(())
    }

    /// Applies a transport state change to the given stream.
    pub fn stream_on_state_changed(&mut self, id: u64, new_state: TransportState) -> (r: Result<
        (),
        SessionError,
    >)
        requires
            old(self).wf(),
        ensures
            final(self).wf(),
            match spec_stream_entry(*old(self), id) {
                None => r == Err::<(), SessionError>(SessionError::StreamGone) && *final(self)
                    == *old(self),
                Some(core) => {
                    &&& spec_forward_frame(*old(self), *final(self), id)
                    &&& r is Ok
                    &&& StreamCore::spec_state_changed(
                        core,
                        spec_stream_entry(*final(self), id)->0,
                        new_state,
                    )
                },
            },
    {
        let index = match registry_get(&self.registry, id) {
            None => {
                return Err(SessionError::StreamGone);
            },
            Some(i) => i,
        };
        let ghost pre = *old(self);
        let slot = &mut self.slots[index];
        match slot {
            Some(core) => core.on_state_changed(new_state),
            None => {
                proof {
                    assert(false);
                }
                return Err(SessionError::StreamGone);
            },
        };
        proof {
            lemma_forward_preserves(pre, *self, id, self.slots@[index as int]->0);
        }
        Ok(())
    }

    /// Handles a parameter-changed notification for the given stream.
    pub fn stream_on_param_changed<B: StreamBackend>(
        &mut self,
        id: u64,
        backend: &mut B,
        param_id: u32,
        param: Option<&PodObject>,
    ) -> (r: Result<ParamChangeAction, SessionError>)
        requires
            old(self).wf(),
        ensures
            final(self).wf(),
            match spec_stream_entry(*old(self), id) {
                None => r == Err::<ParamChangeAction, SessionError>(SessionError::StreamGone)
                    && *final(self) == *old(self),
                Some(core) => {
                    &&& spec_forward_frame(*old(self), *final(self), id)
                    &&& r matches Ok(action)
                    &&& spec_param_outcome(
                        core,
                        spec_stream_entry(*final(self), id)->0,
                        param_id,
                        match param {
                            Some(obj) => Some(*obj),
                            None => None,
                        },
                        action,
                    )
                },
            },
    {
        let index = match registry_get(&self.registry, id) {
            None => {
                return Err(SessionError::StreamGone);
            },
            Some(i) => i,
        };
        let ghost pre = *old(self);
        let slot = &mut self.slots[index];
        let action = match slot {
            Some(core) => core.on_param_changed(backend, param_id, param),
            None => {
                proof {
                    assert(false);
                }
                return Err(SessionError::StreamGone);
            },
        };
        proof {
            lemma_forward_preserves(pre, *self, id, self.slots@[index as int]->0);
        }
        Ok(action)
    }

    /// Handles an add-buffer event for the given stream.
    pub fn stream_on_add_buffer<B: StreamBackend>(
        &mut self,
        id: u64,
        backend: &mut B,
        handle: BufferHandle,
        n_datas: usize,
        metas: Vec<MetaBlock>,
    ) -> (r: Result<bool, SessionError>)
        requires
            old(self).wf(),
            handle.spec_raw() != 0,
            match spec_stream_entry(*old(self), id) {
                Some(core) => spec_find_slot(core.buffers@, handle.spec_raw()) is None && forall|
                    i: int,
                |
                    0 <= i < core.queue_view().len() ==> #[trigger] core.queue_view()[i]
                        != handle.spec_raw(),
                None => true,
            },
        ensures
            final(self).wf(),
            match spec_stream_entry(*old(self), id) {
                None => r == Err::<bool, SessionError>(SessionError::StreamGone) && *final(self)
                    == *old(self),
                Some(core) => {
                    &&& spec_forward_frame(*old(self), *final(self), id)
                    &&& r matches Ok(valid)
                    &&& spec_add_outcome(
                        core,
                        spec_stream_entry(*final(self), id)->0,
                        handle,
                        n_datas,
                        metas@,
                        valid,
                    )
                },
            },
    {
        let index = match registry_get(&self.registry, id) {
            None => {
                return Err(SessionError::StreamGone);
            },
            Some(i) => i,
        };
        let ghost pre = *old(self);
        let slot = &mut self.slots[index];
        let valid = match slot {
            Some(core) => core.on_add_buffer(backend, handle, n_datas, metas),
            None => {
                proof {
                    assert(false);
                }
                return Err(SessionError::StreamGone);
            },
        };
        proof {
            lemma_forward_preserves(pre, *self, id, self.slots@[index as int]->0);
        }
        Ok(valid)
    }

    /// Handles a remove-buffer event for the given stream.
    pub fn stream_on_remove_buffer<B: StreamBackend>(
        &mut self,
        id: u64,
        backend: &mut B,
        handle: BufferHandle,
    ) -> (r: Result<bool, SessionError>)
        requires
            old(self).wf(),
        ensures
            final(self).wf(),
            match spec_stream_entry(*old(self), id) {
                None => r == Err::<bool, SessionError>(SessionError::StreamGone) && *final(self)
                    == *old(self),
                Some(core) => {
                    &&& spec_forward_frame(*old(self), *final(self), id)
                    &&& r matches Ok(freed)
                    &&& spec_removed(
                        core,
                        spec_stream_entry(*final(self), id)->0,
                        handle,
                        freed,
                    )
                },
            },
    {
        let index = match registry_get(&self.registry, id) {
            None => {
                return Err(SessionError::StreamGone);
            },
            Some(i) => i,
        };
        let ghost pre = *old(self);
        let slot = &mut self.slots[index];
        let freed = match slot {
            Some(core) => core.on_remove_buffer(backend, handle),
            None => {
                proof {
                    assert(false);
                }
                return Err(SessionError::StreamGone);
            },
        };
        proof {
            lemma_forward_preserves(pre, *self, id, self.slots@[index as int]->0);
        }
        Ok(freed)
    }

    /// Handles one process callback for the given stream.
    pub fn stream_on_process<B: StreamBackend>(
        &mut self,
        id: u64,
        backend: &mut B,
        pts: i64,
    ) -> (r: Result<ProcessOutcome, SessionError>)
        requires
            old(self).wf(),
        ensures
            final(self).wf(),
            match spec_stream_entry(*old(self), id) {
                None => r == Err::<ProcessOutcome, SessionError>(SessionError::StreamGone)
                    && *final(self) == *old(self),
                Some(core) => {
                    &&& spec_forward_frame(*old(self), *final(self), id)
                    &&& r matches Ok(out)
                    &&& spec_process_outcome(
                        core,
                        spec_stream_entry(*final(self), id)->0,
                        pts,
                        out,
                    )
                },
            },
    {
        let index = match registry_get(&self.registry, id) {
            None => {
                return Err(SessionError::StreamGone);
            },
            Some(i) => i,
        };
        let ghost pre = *old(self);
        let slot = &mut self.slots[index];
        let out = match slot {
            Some(core) => core.on_process(backend, pts),
            None => {
                proof {
                    assert(false);
                }
                return Err(SessionError::StreamGone);
            },
        };
        proof {
            lemma_forward_preserves(pre, *self, id, self.slots@[index as int]->0);
        }
        Ok(out)
    }
}

} // verus!
