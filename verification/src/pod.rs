//! Structured negotiation records exchanged with the media transport.
//!
//! The transport speaks in typed parameter objects: a tree of values with
//! keyed properties. This module models the subset the stream negotiator
//! reads and writes, together with the protocol constants that identify
//! object kinds, property keys and flags.

use crate::format::Format;
use vstd::prelude::*;

verus! {

// Object kinds.
#[allow(non_upper_case_globals)]
pub const SPA_TYPE_OBJECT_Format: u32 = 0x40003;

#[allow(non_upper_case_globals)]
pub const SPA_TYPE_OBJECT_ParamBuffers: u32 = 0x40004;

#[allow(non_upper_case_globals)]
pub const SPA_TYPE_OBJECT_ParamMeta: u32 = 0x40005;

// Parameter ids.
#[allow(non_upper_case_globals)]
pub const SPA_PARAM_EnumFormat: u32 = 3;

#[allow(non_upper_case_globals)]
pub const SPA_PARAM_Format: u32 = 4;

#[allow(non_upper_case_globals)]
pub const SPA_PARAM_Buffers: u32 = 5;

#[allow(non_upper_case_globals)]
pub const SPA_PARAM_Meta: u32 = 6;

// Keys of buffer-parameter properties.
#[allow(non_upper_case_globals)]
pub const SPA_PARAM_BUFFERS_buffers: u32 = 1;

#[allow(non_upper_case_globals)]
pub const SPA_PARAM_BUFFERS_blocks: u32 = 2;

#[allow(non_upper_case_globals)]
pub const SPA_PARAM_BUFFERS_dataType: u32 = 6;

// Keys of metadata-parameter properties.
#[allow(non_upper_case_globals)]
pub const SPA_PARAM_META_type: u32 = 1;

#[allow(non_upper_case_globals)]
pub const SPA_PARAM_META_size: u32 = 2;

// Metadata block kinds.
#[allow(non_upper_case_globals)]
pub const SPA_META_Header: u32 = 1;

#[allow(non_upper_case_globals)]
pub const SPA_META_Cursor: u32 = 5;

// Buffer data kinds.
#[allow(non_upper_case_globals)]
pub const SPA_DATA_Invalid: u32 = 0;

#[allow(non_upper_case_globals)]
pub const SPA_DATA_MemFd: u32 = 2;

#[allow(non_upper_case_globals)]
pub const SPA_DATA_DmaBuf: u32 = 3;

// Keys of format properties.
#[allow(non_upper_case_globals)]
pub const SPA_FORMAT_mediaType: u32 = 1;

#[allow(non_upper_case_globals)]
pub const SPA_FORMAT_mediaSubtype: u32 = 2;

#[allow(non_upper_case_globals)]
pub const SPA_FORMAT_VIDEO_format: u32 = 0x20001;

#[allow(non_upper_case_globals)]
pub const SPA_FORMAT_VIDEO_modifier: u32 = 0x20002;

#[allow(non_upper_case_globals)]
pub const SPA_FORMAT_VIDEO_size: u32 = 0x20003;

#[allow(non_upper_case_globals)]
pub const SPA_FORMAT_VIDEO_framerate: u32 = 0x20004;

// Media types and subtypes.
#[allow(non_upper_case_globals)]
pub const SPA_MEDIA_TYPE_video: u32 = 2;

#[allow(non_upper_case_globals)]
pub const SPA_MEDIA_SUBTYPE_raw: u32 = 1;

// Property flags.
pub const SPA_POD_PROP_FLAG_MANDATORY: u32 = 8;

pub const SPA_POD_PROP_FLAG_DONT_FIXATE: u32 = 16;

// Fixed metadata struct sizes, in bytes, as laid out on the wire.
pub const SPA_META_HEADER_SIZE: u32 = 32;

pub const SPA_META_CURSOR_SIZE: u32 = 28;

pub const SPA_META_BITMAP_SIZE: u32 = 20;

/// A value restricted to a set of alternatives, with a preferred default.
#[derive(Clone, Debug, PartialEq)]
pub enum ChoiceEnum<T> {
    /// One of an explicit list of alternatives, the default preferred.
    Enum { default: T, alternatives: Vec<T> },
    /// A set of flag values.
    Flags { default: T, flags: Vec<T> },
    /// A stepped range.
    Step { default: T, min: T, max: T, step: T },
    /// A contiguous range.
    Range { default: T, min: T, max: T },
    /// No choice left: a single value.
    Value(T),
}

/// One typed value inside a parameter object.
#[derive(Clone, Debug, PartialEq)]
pub enum PodValue {
    Id(u32),
    Int(i32),
    Long(i64),
    Rectangle { width: u32, height: u32 },
    Fraction { num: u32, denom: u32 },
    IdArray(Vec<u32>),
    LongArray(Vec<i64>),
    ChoiceId(ChoiceEnum<u32>),
    ChoiceInt(ChoiceEnum<i32>),
    ChoiceLong(ChoiceEnum<i64>),
}

/// A keyed, flagged property of a parameter object.
#[derive(Clone, Debug, PartialEq)]
pub struct PodProperty {
    pub key: u32,
    pub flags: u32,
    pub value: PodValue,
}

/// A parameter object: an object kind, a parameter id, and its properties.
#[derive(Clone, Debug, PartialEq)]
pub struct PodObject {
    pub object_type: u32,
    pub object_id: u32,
    pub properties: Vec<PodProperty>,
}

/// The values a choice denotes, preferred value first.
pub open spec fn spec_choice_collect<T>(choice: ChoiceEnum<T>) -> Seq<T> {
    match choice {
        ChoiceEnum::Enum { default, alternatives } => seq![default] + alternatives@,
        ChoiceEnum::Flags { default, flags } => seq![default] + flags@,
        ChoiceEnum::Step { default, .. } => seq![default],
        ChoiceEnum::Range { default, .. } => seq![default],
        ChoiceEnum::Value(value) => seq![value],
    }
}

/// Collects the values a choice denotes, preferred value first.
pub fn choice_collect<T>(choice: ChoiceEnum<T>) -> (r: Vec<T>)
    ensures
        r@ == spec_choice_collect(choice),
{
    match choice {
        ChoiceEnum::Enum { default, mut alternatives } => {
            alternatives.insert(0, default);
            alternatives
        },
        ChoiceEnum::Flags { default, mut flags } => {
            flags.insert(0, default);
            flags
        },
        ChoiceEnum::Step { default, .. } => vec![default],
        ChoiceEnum::Range { default, .. } => vec![default],
        ChoiceEnum::Value(value) => vec![value],
    }
}

/// The id values a property value denotes; values of other types denote none.
pub open spec fn spec_collect_id(value: PodValue) -> Seq<u32> {
    match value {
        PodValue::IdArray(ids) => ids@,
        PodValue::ChoiceId(choice) => spec_choice_collect(choice),
        PodValue::Id(id) => seq![id],
        _ => Seq::empty(),
    }
}

/// Collects the id values a property value denotes.
pub fn value_collect_id(value: PodValue) -> (r: Vec<u32>)
    ensures
        r@ == spec_collect_id(value),
{
    match value {
        PodValue::IdArray(ids) => ids,
        PodValue::ChoiceId(choice) => choice_collect(choice),
        PodValue::Id(id) => vec![id],
        _ => Vec::new(),
    }
}

/// The long values a property value denotes; values of other types denote
/// none.
pub open spec fn spec_collect_long(value: PodValue) -> Seq<i64> {
    match value {
        PodValue::LongArray(longs) => longs@,
        PodValue::ChoiceLong(choice) => spec_choice_collect(choice),
        PodValue::Long(long) => seq![long],
        _ => Seq::empty(),
    }
}

/// Collects the long values a property value denotes.
pub fn value_collect_long(value: PodValue) -> (r: Vec<i64>)
    ensures
        r@ == spec_collect_long(value),
{
    match value {
        PodValue::LongArray(longs) => longs,
        PodValue::ChoiceLong(choice) => choice_collect(choice),
        PodValue::Long(long) => vec![long],
        _ => Vec::new(),
    }
}

} // verus!

verus! {

/// A format proposal reduced to what the negotiator acts on: the pixel
/// format, whether the modifier choice is still open, and the candidate
/// modifiers.
#[derive(Clone, Debug, PartialEq)]
pub struct VideoRawInfo {
    pub format: Format,
    pub dont_fixate_modifier: bool,
    pub modifiers: Vec<u64>,
}

/// Why a parameter object could not be read as a raw-video format.
#[derive(Clone, Copy, Debug, PartialEq, Eq, Structural)]
pub enum FormatParseError {
    /// The object is not a format object.
    NotFormat,
    /// A pixel-format property is present but names no format.
    NoFormat,
}

/// The effect of one property on the accumulated proposal: pixel-format
/// properties choose the format, modifier properties the candidate list and
/// the fixation flag; other properties are skipped. A pixel-format property
/// that names no format aborts the parse.
pub open spec fn spec_apply_format_prop(
    acc: (Format, bool, Seq<u64>),
    prop: PodProperty,
) -> Option<(Format, bool, Seq<u64>)> {
    if prop.key == SPA_FORMAT_VIDEO_format {
        let ids = spec_collect_id(prop.value);
        if ids.len() == 0 {
            None
        } else {
            Some((Format::spec_from_code(ids[0]), acc.1, acc.2))
        }
    } else if prop.key == SPA_FORMAT_VIDEO_modifier {
        Some(
            (
                acc.0,
                prop.flags & SPA_POD_PROP_FLAG_DONT_FIXATE != 0,
                spec_collect_long(prop.value).map_values(|v: i64| v as u64),
            ),
        )
    } else {
        Some(acc)
    }
}

/// Folds the properties of a format object, in order, over an accumulated
/// proposal.
pub open spec fn spec_parse_format_props(
    props: Seq<PodProperty>,
    acc: (Format, bool, Seq<u64>),
) -> Option<(Format, bool, Seq<u64>)>
    decreases props.len(),
{
    if props.len() == 0 {
        Some(acc)
    } else {
        match spec_apply_format_prop(acc, props[0]) {
            Some(next) => spec_parse_format_props(props.skip(1), next),
            None => None,
        }
    }
}

/// What reading a parameter object as a raw-video proposal yields: the
/// folded properties for a format object, nothing for any other object.
pub open spec fn spec_video_raw_info(obj: PodObject) -> Option<(Format, bool, Seq<u64>)> {
    if obj.object_type == SPA_TYPE_OBJECT_Format {
        spec_parse_format_props(obj.properties@, (Format::UNKNOWN, false, Seq::empty()))
    } else {
        None
    }
}

/// Copies a vector of ids.
fn copy_vec_u32(v: &Vec<u32>) -> (r: Vec<u32>)
    ensures
        r@ == v@,
{
    let mut r: Vec<u32> = Vec::new();
    let mut i: usize = 0;
    while i < v.len()
        invariant
            i <= v.len(),
            r@ == v@.take(i as int),
        decreases v.len() - i,
    {
        r.push(v[i]);
        proof {
            assert(r@ =~= v@.take(i + 1));
        }
        i = i + 1;
    }
    proof {
        assert(r@ =~= v@);
    }
    r
}

/// Copies a vector of longs.
fn copy_vec_i64(v: &Vec<i64>) -> (r: Vec<i64>)
    ensures
        r@ == v@,
{
    let mut r: Vec<i64> = Vec::new();
    let mut i: usize = 0;
    while i < v.len()
        invariant
            i <= v.len(),
            r@ == v@.take(i as int),
        decreases v.len() - i,
    {
        r.push(v[i]);
        proof {
            assert(r@ =~= v@.take(i + 1));
        }
        i = i + 1;
    }
    proof {
        assert(r@ =~= v@);
    }
    r
}

/// Copies a vector of modifiers.
pub(crate) fn copy_vec_u64(v: &Vec<u64>) -> (r: Vec<u64>)
    ensures
        r@ == v@,
{
    let mut r: Vec<u64> = Vec::new();
    let mut i: usize = 0;
    while i < v.len()
        invariant
            i <= v.len(),
            r@ == v@.take(i as int),
        decreases v.len() - i,
    {
        r.push(v[i]);
        proof {
            assert(r@ =~= v@.take(i + 1));
        }
        i = i + 1;
    }
    proof {
        assert(r@ =~= v@);
    }
    r
}

/// Collects the id values a borrowed property value denotes.
fn collect_id_ref(value: &PodValue) -> (r: Vec<u32>)
    ensures
        r@ == spec_collect_id(*value),
{
    match value {
        PodValue::IdArray(ids) => copy_vec_u32(ids),
        PodValue::ChoiceId(choice) => match choice {
            ChoiceEnum::Enum { default, alternatives } => {
                let mut r = copy_vec_u32(alternatives);
                r.insert(0, *default);
                proof {
                    assert(r@ =~= spec_choice_collect(*choice));
                }
                r
            },
            ChoiceEnum::Flags { default, flags } => {
                let mut r = copy_vec_u32(flags);
                r.insert(0, *default);
                proof {
                    assert(r@ =~= spec_choice_collect(*choice));
                }
                r
            },
            ChoiceEnum::Step { default, .. } => vec![*default],
            ChoiceEnum::Range { default, .. } => vec![*default],
            ChoiceEnum::Value(v) => vec![*v],
        },
        PodValue::Id(id) => vec![*id],
        _ => Vec::new(),
    }
}

/// Collects the long values a borrowed property value denotes.
fn collect_long_ref(value: &PodValue) -> (r: Vec<i64>)
    ensures
        r@ == spec_collect_long(*value),
{
    match value {
        PodValue::LongArray(longs) => copy_vec_i64(longs),
        PodValue::ChoiceLong(choice) => match choice {
            ChoiceEnum::Enum { default, alternatives } => {
                let mut r = copy_vec_i64(alternatives);
                r.insert(0, *default);
                proof {
                    assert(r@ =~= spec_choice_collect(*choice));
                }
                r
            },
            ChoiceEnum::Flags { default, flags } => {
                let mut r = copy_vec_i64(flags);
                r.insert(0, *default);
                proof {
                    assert(r@ =~= spec_choice_collect(*choice));
                }
                r
            },
            ChoiceEnum::Step { default, .. } => vec![*default],
            ChoiceEnum::Range { default, .. } => vec![*default],
            ChoiceEnum::Value(v) => vec![*v],
        },
        PodValue::Long(long) => vec![*long],
        _ => Vec::new(),
    }
}

impl VideoRawInfo {
    /// Reads a parameter object as a raw-video format proposal.
    ///
    /// Mirrors the transport's reading: the last pixel-format property wins,
    /// as does the last modifier property; an object of another kind, or a
    /// pixel-format property naming no format, is rejected.
    pub fn try_from_pod(obj: &PodObject) -> (r: Result<VideoRawInfo, FormatParseError>)
        ensures
            obj.object_type != SPA_TYPE_OBJECT_Format ==> r == Err::<
                VideoRawInfo,
                FormatParseError,
            >(FormatParseError::NotFormat),
            obj.object_type == SPA_TYPE_OBJECT_Format ==> match spec_video_raw_info(*obj) {
                Some(parsed) => r matches Ok(info) && info.format == parsed.0
                    && info.dont_fixate_modifier == parsed.1 && info.modifiers@ == parsed.2,
                None => r == Err::<VideoRawInfo, FormatParseError>(FormatParseError::NoFormat),
            },
    {
        if obj.object_type != SPA_TYPE_OBJECT_Format {
            return Err(FormatParseError::NotFormat);
        }
        let ghost all_props = obj.properties@;
        let ghost init = (Format::UNKNOWN, false, Seq::<u64>::empty());
        let mut format = Format::UNKNOWN;
        let mut dont_fixate_modifier = false;
        let mut modifiers: Vec<u64> = Vec::new();
        let mut i: usize = 0;
        proof {
            assert(all_props.skip(0) =~= all_props);
        }
        while i < obj.properties.len()
            invariant
                i <= obj.properties.len(),
                obj.object_type == SPA_TYPE_OBJECT_Format,
                all_props == obj.properties@,
                init == (Format::UNKNOWN, false, Seq::<u64>::empty()),
                spec_parse_format_props(all_props, init) == spec_parse_format_props(
                    all_props.skip(i as int),
                    (format, dont_fixate_modifier, modifiers@),
                ),
            decreases obj.properties.len() - i,
        {
            let prop = &obj.properties[i];
            let ghost acc = (format, dont_fixate_modifier, modifiers@);
            proof {
                assert(all_props.skip(i as int).len() > 0);
                assert(all_props.skip(i as int)[0] == *prop);
                assert(all_props.skip(i as int).skip(1) =~= all_props.skip(i + 1));
                assert(spec_parse_format_props(all_props.skip(i as int), acc) == match
                    spec_apply_format_prop(acc, *prop) {
                    Some(next) => spec_parse_format_props(all_props.skip(i + 1), next),
                    None => None,
                });
            }
            if prop.key == SPA_FORMAT_VIDEO_format {
                let ids = collect_id_ref(&prop.value);
                if ids.len() == 0 {
                    return Err(FormatParseError::NoFormat);
                }
                format = Format::from_raw(ids[0]);
            } else if prop.key == SPA_FORMAT_VIDEO_modifier {
                dont_fixate_modifier = prop.flags & SPA_POD_PROP_FLAG_DONT_FIXATE != 0;
                let longs = collect_long_ref(&prop.value);
                let mut converted: Vec<u64> = Vec::new();
                let mut j: usize = 0;
                while j < longs.len()
                    invariant
                        j <= longs.len(),
                        converted@ == longs@.map_values(|v: i64| v as u64).take(j as int),
                    decreases longs.len() - j,
                {
                    converted.push(#[verifier::truncate] (longs[j] as u64));
                    proof {
                        assert(converted@ =~= longs@.map_values(|v: i64| v as u64).take(j + 1));
                    }
                    j = j + 1;
                }
                proof {
                    assert(converted@ =~= longs@.map_values(|v: i64| v as u64));
                }
                modifiers = converted;
            }
            i = i + 1;
        }
        proof {
            assert(all_props.skip(i as int) =~= Seq::<PodProperty>::empty());
        }
        Ok(VideoRawInfo { format, dont_fixate_modifier, modifiers })
    }
}

} // verus!
