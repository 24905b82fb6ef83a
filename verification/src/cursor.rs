//! Conversion of a cursor snapshot into the stream's cursor record.
//!
//! Cursor managers live with the embedding process and report snapshots as
//! plain values; this module holds the verified conversion into the cursor
//! record a processed frame carries. A pointer outside the window yields
//! no record at all.

use crate::Point;
use crate::buffer::BufferBitmap;
use crate::buffer::BufferCursorInfo;
use crate::format::Format;
use vstd::prelude::*;

verus! {

/// What one cursor snapshot reports: whether the pointer is inside the
/// window, its position in window coordinates, its hotspot in bitmap
/// coordinates, an optional bitmap as (width, height, bytes per pixel,
/// pixels), and the bitmap's pixel format.
pub struct CursorSnapshotInfo {
    pub entered: bool,
    pub position: (i32, i32),
    pub hotspot: (i32, i32),
    pub bitmap: Option<(u32, u32, u32, Vec<u8>)>,
    pub format: Format,
}

/// Turns a snapshot into the cursor record attached to a frame: nothing
/// when the pointer is outside the window, else the snapshot's geometry
/// and bitmap, with `serial` telling the stream to advance its cursor
/// identity.
pub fn as_cursor_info(snapshot: CursorSnapshotInfo, serial: bool) -> (r: Option<BufferCursorInfo>)
    ensures
        !snapshot.entered ==> r is None,
        snapshot.entered ==> {
            &&& r matches Some(info)
            &&& info.serial == serial
            &&& info.position == (Point { x: snapshot.position.0, y: snapshot.position.1 })
            &&& info.hotspot == (Point { x: snapshot.hotspot.0, y: snapshot.hotspot.1 })
            &&& match snapshot.bitmap {
                Some(bitmap) => info.bitmap matches Some(b) && b.width == bitmap.0 && b.height
                    == bitmap.1 && b.format == snapshot.format && b.pixels@ == bitmap.3@,
                None => info.bitmap is None,
            }
        },
{
    if !snapshot.entered {
        return None;
    }
    let bitmap = match snapshot.bitmap {
        Some((width, height, _bpp, pixels)) => Some(
            BufferBitmap { width, height, format: snapshot.format, pixels },
        ),
        None => None,
    };
    Some(
        BufferCursorInfo {
            serial,
            position: Point { x: snapshot.position.0, y: snapshot.position.1 },
            hotspot: Point { x: snapshot.hotspot.0, y: snapshot.hotspot.1 },
            bitmap,
        },
    )
}

} // verus!
