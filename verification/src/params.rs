//! Builders for the parameter objects the stream publishes.
//!
//! Two records are built here: the format offer (one per candidate
//! format/modifier alternative, or a pinned one during deferred modifier
//! fixation) and the buffer/metadata parameter set published once a format
//! is agreed.

use crate::format::Format;
use crate::pod::ChoiceEnum;
use crate::pod::PodObject;
use crate::pod::PodProperty;
use crate::pod::PodValue;
use crate::pod::SPA_DATA_DmaBuf;
use crate::pod::SPA_DATA_MemFd;
use crate::pod::SPA_FORMAT_VIDEO_format;
use crate::pod::SPA_FORMAT_VIDEO_framerate;
use crate::pod::SPA_FORMAT_VIDEO_modifier;
use crate::pod::SPA_FORMAT_VIDEO_size;
use crate::pod::SPA_FORMAT_mediaSubtype;
use crate::pod::SPA_FORMAT_mediaType;
use crate::pod::SPA_MEDIA_SUBTYPE_raw;
use crate::pod::SPA_MEDIA_TYPE_video;
use crate::pod::SPA_META_BITMAP_SIZE;
use crate::pod::SPA_META_CURSOR_SIZE;
use crate::pod::SPA_META_Cursor;
use crate::pod::SPA_META_HEADER_SIZE;
use crate::pod::SPA_META_Header;
use crate::pod::SPA_PARAM_BUFFERS_blocks;
use crate::pod::SPA_PARAM_BUFFERS_buffers;
use crate::pod::SPA_PARAM_BUFFERS_dataType;
use crate::pod::SPA_PARAM_Buffers;
use crate::pod::SPA_PARAM_META_size;
use crate::pod::SPA_PARAM_META_type;
use crate::pod::SPA_PARAM_Meta;
use crate::pod::SPA_POD_PROP_FLAG_DONT_FIXATE;
use crate::pod::SPA_POD_PROP_FLAG_MANDATORY;
use crate::pod::SPA_PARAM_EnumFormat;
use crate::pod::SPA_TYPE_OBJECT_Format;
use crate::pod::SPA_TYPE_OBJECT_ParamBuffers;
use crate::pod::SPA_TYPE_OBJECT_ParamMeta;
use vstd::prelude::*;

verus! {

/// Largest cursor bitmap edge, in pixels, the cursor metadata block admits.
pub const MAX_CURSOR_WIDTH: u32 = 64;

/// Bytes per pixel reserved for the cursor bitmap.
pub const MAX_CURSOR_BPP: u32 = 4;

/// Bytes reserved for the cursor bitmap itself.
pub const MAX_CURSOR_BITMAP_SIZE: u32 = 64 * 64 * 4;

/// Bytes of the whole cursor metadata block: the cursor struct, one bitmap
/// struct, and the bitmap bytes.
pub const CURSOR_META_SIZE: u32 = SPA_META_CURSOR_SIZE + SPA_META_BITMAP_SIZE
    + MAX_CURSOR_BITMAP_SIZE;

/// Default of the buffer-count range offered to the transport.
pub const DEFAULT_BUFFER_COUNT: i32 = 8;

/// The pixel-format property value of a format offer: a plain id for a
/// single candidate, else a choice preferring the first candidate.
pub open spec fn spec_is_format_value(v: PodValue, formats: Seq<Format>) -> bool {
    if formats.len() > 1 {
        &&& v matches PodValue::ChoiceId(ChoiceEnum::Enum { default, alternatives })
        &&& default == formats[0].code()
        &&& alternatives@ == formats.map_values(|f: Format| f.code())
    } else {
        v == PodValue::Id(formats[0].code())
    }
}

/// The modifier property of a format offer: a mandatory fixed value when
/// fixating, else a mandatory, not-yet-fixated choice preferring the first
/// candidate.
pub open spec fn spec_is_modifier_prop(p: PodProperty, modifiers: Seq<u64>, fixate: bool) -> bool {
    &&& p.key == SPA_FORMAT_VIDEO_modifier
    &&& if fixate {
        &&& p.flags == SPA_POD_PROP_FLAG_MANDATORY
        &&& p.value == PodValue::Long(modifiers[0] as i64)
    } else {
        &&& p.flags == SPA_POD_PROP_FLAG_MANDATORY | SPA_POD_PROP_FLAG_DONT_FIXATE
        &&& p.value matches PodValue::ChoiceLong(ChoiceEnum::Enum { default, alternatives })
        &&& default == modifiers[0] as i64
        &&& alternatives@ == modifiers.map_values(|m: u64| m as i64)
    }
}

/// A raw-video format offer for the given size and candidates.
pub open spec fn spec_is_format_pod(
    o: PodObject,
    width: u32,
    height: u32,
    formats: Seq<Format>,
    modifiers: Seq<u64>,
    fixate: bool,
) -> bool {
    &&& o.object_type == SPA_TYPE_OBJECT_Format
    &&& o.object_id == SPA_PARAM_EnumFormat
    &&& o.properties@.len() == (if modifiers.len() > 0 {
        6int
    } else {
        5int
    })
    &&& o.properties@[0] == (PodProperty {
        key: SPA_FORMAT_mediaType,
        flags: 0,
        value: PodValue::Id(SPA_MEDIA_TYPE_video),
    })
    &&& o.properties@[1] == (PodProperty {
        key: SPA_FORMAT_mediaSubtype,
        flags: 0,
        value: PodValue::Id(SPA_MEDIA_SUBTYPE_raw),
    })
    &&& o.properties@[2].key == SPA_FORMAT_VIDEO_format
    &&& o.properties@[2].flags == 0
    &&& spec_is_format_value(o.properties@[2].value, formats)
    &&& o.properties@[3] == (PodProperty {
        key: SPA_FORMAT_VIDEO_size,
        flags: 0,
        value: PodValue::Rectangle { width, height },
    })
    &&& o.properties@[4] == (PodProperty {
        key: SPA_FORMAT_VIDEO_framerate,
        flags: 0,
        value: PodValue::Fraction { num: 0, denom: 1 },
    })
    &&& modifiers.len() > 0 ==> spec_is_modifier_prop(o.properties@[5], modifiers, fixate)
}

/// Builds the format offer for the given size and candidate lists.
///
/// With more than one candidate format the offer enumerates them all,
/// preferring the first; with candidate modifiers the offer carries them as
/// a mandatory property, either fixed to the first one or, when `fixate` is
/// false, left open for the transport to narrow.
pub fn build_format(
    width: u32,
    height: u32,
    formats: &Vec<Format>,
    modifiers: &Vec<u64>,
    fixate: bool,
) -> (r: PodObject)
    requires
        formats@.len() > 0,
    ensures
        spec_is_format_pod(r, width, height, formats@, modifiers@, fixate),
{
    let format_value: PodValue = if formats.len() > 1 {
        let mut alternatives: Vec<u32> = Vec::new();
        let mut i: usize = 0;
        while i < formats.len()
            invariant
                i <= formats.len(),
                alternatives@ == formats@.map_values(|f: Format| f.code()).take(i as int),
            decreases formats.len() - i,
        {
            alternatives.push(formats[i].to_raw());
            proof {
                assert(alternatives@ =~= formats@.map_values(|f: Format| f.code()).take(i + 1));
            }
            i = i + 1;
        }
        proof {
            assert(alternatives@ =~= formats@.map_values(|f: Format| f.code()));
        }
        PodValue::ChoiceId(
            ChoiceEnum::Enum { default: formats[0].to_raw(), alternatives },
        )
    } else {
        PodValue::Id(formats[0].to_raw())
    };

    let mut properties: Vec<PodProperty> = Vec::new();
    properties.push(
        PodProperty {
            key: SPA_FORMAT_mediaType,
            flags: 0,
            value: PodValue::Id(SPA_MEDIA_TYPE_video),
        },
    );
    properties.push(
        PodProperty {
            key: SPA_FORMAT_mediaSubtype,
            flags: 0,
            value: PodValue::Id(SPA_MEDIA_SUBTYPE_raw),
        },
    );
    properties.push(PodProperty { key: SPA_FORMAT_VIDEO_format, flags: 0, value: format_value });
    properties.push(
        PodProperty {
            key: SPA_FORMAT_VIDEO_size,
            flags: 0,
            value: PodValue::Rectangle { width, height },
        },
    );
    properties.push(
        PodProperty {
            key: SPA_FORMAT_VIDEO_framerate,
            flags: 0,
            value: PodValue::Fraction { num: 0, denom: 1 },
        },
    );

    if modifiers.len() > 0 {
        let prop: PodProperty = if fixate {
            PodProperty {
                key: SPA_FORMAT_VIDEO_modifier,
                flags: SPA_POD_PROP_FLAG_MANDATORY,
                value: PodValue::Long(#[verifier::truncate] (modifiers[0] as i64)),
            }
        } else {
            let mut alternatives: Vec<i64> = Vec::new();
            let mut i: usize = 0;
            while i < modifiers.len()
                invariant
                    i <= modifiers.len(),
                    alternatives@ == modifiers@.map_values(|m: u64| m as i64).take(i as int),
                decreases modifiers.len() - i,
            {
                alternatives.push(#[verifier::truncate] (modifiers[i] as i64));
                proof {
                    assert(alternatives@ =~= modifiers@.map_values(|m: u64| m as i64).take(
                        i + 1,
                    ));
                }
                i = i + 1;
            }
            proof {
                assert(alternatives@ =~= modifiers@.map_values(|m: u64| m as i64));
            }
            PodProperty {
                key: SPA_FORMAT_VIDEO_modifier,
                flags: SPA_POD_PROP_FLAG_MANDATORY | SPA_POD_PROP_FLAG_DONT_FIXATE,
                value: PodValue::ChoiceLong(
                    ChoiceEnum::Enum {
                        default: #[verifier::truncate] (modifiers[0] as i64),
                        alternatives,
                    },
                ),
            }
        };
        properties.push(prop);
    }

    PodObject { object_type: SPA_TYPE_OBJECT_Format, object_id: SPA_PARAM_EnumFormat, properties }
}

/// The buffer-parameter object: a buffer-count range with its default, the
/// number of data blocks per buffer, and the memory backing on offer.
pub open spec fn spec_is_buffers_pod(
    o: PodObject,
    max_buffers: u32,
    blocks: u32,
    is_dma_buf: bool,
) -> bool {
    &&& o.object_type == SPA_TYPE_OBJECT_ParamBuffers
    &&& o.object_id == SPA_PARAM_Buffers
    &&& o.properties@.len() == 3
    &&& o.properties@[0].key == SPA_PARAM_BUFFERS_buffers
    &&& o.properties@[0].flags == 0
    &&& o.properties@[0].value == PodValue::ChoiceInt(
        ChoiceEnum::Range {
            default: DEFAULT_BUFFER_COUNT,
            min: 1i32,
            max: max_buffers as i32,
        },
    )
    &&& o.properties@[1].key == SPA_PARAM_BUFFERS_blocks
    &&& o.properties@[1].flags == 0
    &&& o.properties@[1].value == PodValue::Int(
        if blocks == 0 {
            1i32
        } else {
            blocks as i32
        },
    )
    &&& o.properties@[2].key == SPA_PARAM_BUFFERS_dataType
    &&& o.properties@[2].flags == 0
    &&& o.properties@[2].value matches PodValue::ChoiceInt(
        ChoiceEnum::Flags { default, flags },
    ) && default == (if is_dma_buf {
        1i32 << SPA_DATA_DmaBuf
    } else {
        1i32 << SPA_DATA_MemFd
    }) && flags@ == Seq::<i32>::empty()
}

/// A metadata-parameter object asking for one fixed-size metadata block.
pub open spec fn spec_is_meta_pod(o: PodObject, meta_type: u32, size: u32) -> bool {
    &&& o.object_type == SPA_TYPE_OBJECT_ParamMeta
    &&& o.object_id == SPA_PARAM_Meta
    &&& o.properties@.len() == 2
    &&& o.properties@[0] == (PodProperty {
        key: SPA_PARAM_META_type,
        flags: 0,
        value: PodValue::Id(meta_type),
    })
    &&& o.properties@[1] == (PodProperty {
        key: SPA_PARAM_META_size,
        flags: 0,
        value: PodValue::Int(size as i32),
    })
}

/// Builds the parameter set published once a format is agreed: the
/// buffer-count range and block count, a frame-header metadata block, and a
/// cursor metadata block sized for a bounded bitmap.
pub fn build_stream_params(max_buffers: u32, blocks: u32, is_dma_buf: bool) -> (r: Vec<PodObject>)
    ensures
        r@.len() == 3,
        spec_is_buffers_pod(r@[0], max_buffers, blocks, is_dma_buf),
        spec_is_meta_pod(r@[1], SPA_META_Header, SPA_META_HEADER_SIZE),
        spec_is_meta_pod(r@[2], SPA_META_Cursor, CURSOR_META_SIZE),
{
    let data_type_flag: i32 = if is_dma_buf {
        1i32 << SPA_DATA_DmaBuf
    } else {
        1i32 << SPA_DATA_MemFd
    };

    let blocks_value: i32 = if blocks == 0 {
        1
    } else {
        #[verifier::truncate]
        (blocks as i32)
    };

    let mut buffer_props: Vec<PodProperty> = Vec::new();
    buffer_props.push(
        PodProperty {
            key: SPA_PARAM_BUFFERS_buffers,
            flags: 0,
            value: PodValue::ChoiceInt(
                ChoiceEnum::Range {
                    default: DEFAULT_BUFFER_COUNT,
                    min: 1i32,
                    max: #[verifier::truncate] (max_buffers as i32),
                },
            ),
        },
    );
    buffer_props.push(
        PodProperty {
            key: SPA_PARAM_BUFFERS_blocks,
            flags: 0,
            value: PodValue::Int(blocks_value),
        },
    );
    buffer_props.push(
        PodProperty {
            key: SPA_PARAM_BUFFERS_dataType,
            flags: 0,
            value: PodValue::ChoiceInt(
                ChoiceEnum::Flags { default: data_type_flag, flags: Vec::new() },
            ),
        },
    );
    let buffers = PodObject {
        object_type: SPA_TYPE_OBJECT_ParamBuffers,
        object_id: SPA_PARAM_Buffers,
        properties: buffer_props,
    };

    let meta_header = build_meta_pod(SPA_META_Header, SPA_META_HEADER_SIZE);
    let meta_cursor = build_meta_pod(SPA_META_Cursor, CURSOR_META_SIZE);

    let mut params: Vec<PodObject> = Vec::new();
    params.push(buffers);
    params.push(meta_header);
    params.push(meta_cursor);
    params
}

/// Builds one metadata-parameter object.
fn build_meta_pod(meta_type: u32, size: u32) -> (r: PodObject)
    ensures
        spec_is_meta_pod(r, meta_type, size),
{
    let mut properties: Vec<PodProperty> = Vec::new();
    properties.push(
        PodProperty { key: SPA_PARAM_META_type, flags: 0, value: PodValue::Id(meta_type) },
    );
    properties.push(
        PodProperty {
            key: SPA_PARAM_META_size,
            flags: 0,
            value: PodValue::Int(#[verifier::truncate] (size as i32)),
        },
    );
    PodObject {
        object_type: SPA_TYPE_OBJECT_ParamMeta,
        object_id: SPA_PARAM_Meta,
        properties,
    }
}

} // verus!
