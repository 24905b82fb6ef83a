//! Buffers and their metadata blocks, as the stream sees them.
//!
//! A buffer is a transport-owned slot: a row of data blocks (one per plane)
//! and a row of fixed-size metadata blocks. The backend attaches its own
//! user handle when a buffer is added; the handle identifies the GPU-side
//! resource on every later dequeue/process cycle.

use crate::Point;
use crate::format::Format;
use crate::params::MAX_CURSOR_BITMAP_SIZE;
use crate::pod::SPA_META_BITMAP_SIZE;
use crate::pod::SPA_META_CURSOR_SIZE;
use vstd::prelude::*;

verus! {

/// An opaque, non-null identifier of one transport-owned buffer slot,
/// stable for the buffer's lifetime in the transport's pool.
#[derive(Clone, Copy, Hash, Debug, PartialEq, Eq, Structural)]
pub struct BufferHandle {
    raw: usize,
}

impl BufferHandle {
    /// The identifier's numeric value.
    pub closed spec fn spec_raw(self) -> usize {
        self.raw
    }

    /// Wraps a non-null slot address.
    pub fn from_raw(raw: usize) -> (r: BufferHandle)
        requires
            raw != 0,
        ensures
            r.spec_raw() == raw,
    {
        BufferHandle { raw }
    }

    /// The identifier's numeric value.
    pub fn as_raw(self) -> (r: usize)
        ensures
            r == self.spec_raw(),
    {
        self.raw
    }
}

/// The backend's own name for a buffer's GPU resource, stamped when the
/// buffer is added and cleared when it is removed.
#[derive(Clone, Copy, Hash, Debug, PartialEq, Eq, Structural)]
#[non_exhaustive]
pub enum BufferUserHandle {
    /// An exported GPU image handle.
    VkImage(u64),
    /// A texture name.
    Texture(u32),
}

/// One exported plane of a buffer: its descriptor and layout.
#[derive(Clone, Copy, Debug, PartialEq, Eq, Structural)]
pub struct BufferPlaneInfo {
    pub fd: i64,
    pub offset: u32,
    pub size: u32,
    pub stride: u32,
}

/// What the backend reports for a newly added buffer.
#[derive(Clone, Debug, PartialEq)]
pub struct BufferInfo {
    pub is_dma_buf: bool,
    pub planes: Vec<BufferPlaneInfo>,
    pub user_handle: BufferUserHandle,
}

/// A cursor bitmap handed along with a processed frame.
#[derive(Clone, Debug, PartialEq)]
pub struct BufferBitmap {
    pub width: u32,
    pub height: u32,
    pub format: Format,
    pub pixels: Vec<u8>,
}

/// A cursor snapshot attached to a processed frame.
#[derive(Clone, Debug, PartialEq)]
pub struct BufferCursorInfo {
    /// Change the internal cursor id if `true`.
    pub serial: bool,
    pub position: Point,
    pub hotspot: Point,
    pub bitmap: Option<BufferBitmap>,
}

/// One data block of a transport buffer, as stamped from a plane.
#[derive(Clone, Copy, Debug, PartialEq, Eq, Structural)]
pub struct DataBlock {
    pub data_type: u32,
    pub fd: i64,
    pub mapoffset: u32,
    pub maxsize: u32,
    pub chunk_offset: u32,
    pub chunk_size: u32,
    pub chunk_stride: i32,
}

/// The frame-header metadata block.
#[derive(Clone, Copy, Debug, PartialEq, Eq, Structural)]
pub struct HeaderMeta {
    pub flags: u32,
    pub offset: u32,
    pub pts: i64,
    pub dts_offset: i64,
    pub seq: u64,
}

/// The bitmap part of a cursor metadata block.
#[derive(Clone, Debug, PartialEq)]
pub struct BitmapMeta {
    pub format: Format,
    pub width: u32,
    pub height: u32,
    pub stride: i32,
    pub offset: u32,
    pub pixels: Vec<u8>,
}

/// The cursor metadata block.
#[derive(Clone, Debug, PartialEq)]
pub struct CursorMeta {
    pub id: u32,
    pub flags: u32,
    pub position: Point,
    pub hotspot: Point,
    pub bitmap_offset: u32,
    pub bitmap: Option<BitmapMeta>,
}

/// What a metadata block holds.
#[derive(Clone, Debug, PartialEq)]
pub enum MetaData {
    Header(HeaderMeta),
    Cursor(CursorMeta),
    /// A block of a kind this stream does not touch.
    Opaque,
}

/// One metadata block of a transport buffer: its kind, its byte size, and
/// its content.
#[derive(Clone, Debug, PartialEq)]
pub struct MetaBlock {
    pub meta_type: u32,
    pub size: u32,
    pub data: MetaData,
}

/// Where a buffer currently is in the producer/consumer cycle.
#[derive(Clone, Copy, Debug, PartialEq, Eq, Structural)]
pub enum BufferLocation {
    /// In the transport's free pool, available for dequeue.
    Transport,
    /// Claimed by the producer, being filled.
    Producer,
    /// Queued for processing, waiting for the transport's process callback.
    Queued,
}

/// One transport-owned buffer slot, as the stream tracks it: its stable
/// handle, the backend's user handle (absent when adding the buffer
/// failed), its data and metadata blocks, and where it currently is.
pub struct BufferSlot {
    pub handle: BufferHandle,
    pub user_handle: Option<BufferUserHandle>,
    pub datas: Vec<DataBlock>,
    pub metas: Vec<MetaBlock>,
    pub loc: BufferLocation,
}

/// The index of the metadata block of the given kind, provided the block is
/// large enough; a matching block that is too small ends the search, as a
/// malformed buffer must not be written through.
pub open spec fn spec_find_meta(metas: Seq<MetaBlock>, meta_type: u32, min_size: u32) -> Option<
    int,
>
    decreases metas.len(),
{
    if metas.len() == 0 {
        None
    } else if metas[0].meta_type == meta_type {
        if metas[0].size >= min_size {
            Some(0int)
        } else {
            None
        }
    } else {
        match spec_find_meta(metas.skip(1), meta_type, min_size) {
            Some(i) => Some(i + 1),
            None => None,
        }
    }
}

/// Finds the metadata block of the given kind, provided it is large enough
/// for what will be written into it.
pub fn find_meta(metas: &Vec<MetaBlock>, meta_type: u32, min_size: u32) -> (r: Option<usize>)
    ensures
        match r {
            Some(i) => spec_find_meta(metas@, meta_type, min_size) == Some(i as int) && i
                < metas@.len() && metas@[i as int].meta_type == meta_type
                && metas@[i as int].size >= min_size,
            None => spec_find_meta(metas@, meta_type, min_size) is None,
        },
{
    let mut i: usize = 0;
    proof {
        assert(metas@.skip(0) =~= metas@);
    }
    while i < metas.len()
        invariant
            i <= metas.len(),
            forall|j: int| 0 <= j < i ==> metas@[j].meta_type != meta_type,
            spec_find_meta(metas@, meta_type, min_size) == match spec_find_meta(
                metas@.skip(i as int),
                meta_type,
                min_size,
            ) {
                Some(k) => Some(k + i),
                None => None::<int>,
            },
        decreases metas.len() - i,
    {
        proof {
            assert(metas@.skip(i as int)[0] == metas@[i as int]);
            assert(metas@.skip(i as int).skip(1) =~= metas@.skip(i + 1));
        }
        if metas[i].meta_type == meta_type {
            if metas[i].size >= min_size {
                return Some(i);
            }
            return None;
        }
        i = i + 1;
    }
    proof {
        assert(metas@.skip(i as int) =~= Seq::<MetaBlock>::empty());
    }
    None
}

/// What `fill_cursor_meta` leaves in the cursor block when a snapshot is
/// given: the (possibly advanced) cursor id, the snapshot's geometry, and
/// the bitmap if it fits the reserved space.
pub open spec fn spec_cursor_filled(
    cursor: CursorMeta,
    id: u32,
    info: BufferCursorInfo,
) -> bool {
    &&& cursor.id == id
    &&& cursor.flags == 0
    &&& cursor.position == info.position
    &&& cursor.hotspot == info.hotspot
    &&& match info.bitmap {
        Some(b) => if b.pixels@.len() <= MAX_CURSOR_BITMAP_SIZE {
            &&& cursor.bitmap_offset == SPA_META_CURSOR_SIZE
            &&& cursor.bitmap matches Some(m)
            &&& m.format == b.format
            &&& m.width == b.width
            &&& m.height == b.height
            &&& m.stride == b.width as i32
            &&& m.offset == SPA_META_BITMAP_SIZE
            &&& m.pixels@ == b.pixels@
        } else {
            // An oversize bitmap is discarded rather than overrun the block.
            cursor.bitmap_offset == 0
        },
        None => cursor.bitmap_offset == 0,
    }
}

/// The cursor id after one fill: advanced (wrapping) when the snapshot asks
/// for a new identity, else unchanged.
pub open spec fn spec_next_cursor_id(id: u32, serial: bool) -> u32 {
    if serial {
        if id == u32::MAX {
            0u32
        } else {
            (id + 1) as u32
        }
    } else {
        id
    }
}

/// The whole effect of one cursor fill on the block and the id counter.
pub open spec fn spec_cursor_after_fill(
    pre: CursorMeta,
    post: CursorMeta,
    id_pre: u32,
    id_post: u32,
    info: Option<BufferCursorInfo>,
) -> bool {
    match info {
        Some(snapshot) => {
            &&& id_post == spec_next_cursor_id(id_pre, snapshot.serial)
            &&& spec_cursor_filled(post, id_post, snapshot)
            &&& (snapshot.bitmap matches Some(b) && b.pixels@.len() > MAX_CURSOR_BITMAP_SIZE)
                ==> post.bitmap == pre.bitmap
            &&& snapshot.bitmap is None ==> post.bitmap == pre.bitmap
        },
        None => {
            &&& id_post == id_pre
            &&& post == (CursorMeta { id: 0, ..pre })
        },
    }
}

/// Writes a cursor snapshot into a buffer's cursor metadata block.
///
/// With a snapshot, the block gets the stream's cursor id (advanced first
/// when the snapshot claims a new identity), the snapshot's geometry, and
/// the bitmap when it fits the reserved space; an oversize bitmap is
/// discarded. Without a snapshot the block is marked empty by a zero id.
pub fn fill_cursor_meta(
    cursor_id: &mut u32,
    cursor: &mut CursorMeta,
    info: Option<BufferCursorInfo>,
) -> (r: ())
    ensures
        spec_cursor_after_fill(*old(cursor), *final(cursor), *old(cursor_id), *final(cursor_id), info),
{
    if let Some(snapshot) = info {
        if snapshot.serial {
            if *cursor_id == u32::MAX {
                *cursor_id = 0;
            } else {
                *cursor_id = *cursor_id + 1;
            }
        }
        cursor.id = *cursor_id;
        cursor.flags = 0;
        cursor.position = snapshot.position;
        cursor.hotspot = snapshot.hotspot;
        if let Some(bitmap) = snapshot.bitmap {
            if bitmap.pixels.len() <= MAX_CURSOR_BITMAP_SIZE as usize {
                cursor.bitmap_offset = SPA_META_CURSOR_SIZE;
                cursor.bitmap = Some(
                    BitmapMeta {
                        format: bitmap.format,
                        width: bitmap.width,
                        height: bitmap.height,
                        stride: #[verifier::truncate] (bitmap.width as i32),
                        offset: SPA_META_BITMAP_SIZE,
                        pixels: bitmap.pixels,
                    },
                );
            } else {
                // The bitmap exceeds the reserved block: discard it.
                cursor.bitmap_offset = 0;
            }
        } else {
            cursor.bitmap_offset = 0;
        }
    } else {
        cursor.id = 0;
    }
}

} // verus!
