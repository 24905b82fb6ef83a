//! Transfer functions of GPU image formats.
//!
//! A GPU format's transfer function is read off its name: the name carries
//! a suffix tag such as the sRGB or normalised-integer marker. The name of
//! a format code comes from the GPU bindings crate; the search through it
//! is verified here.

use crate::format::Format;
use crate::format::Transfer;
use vstd::prelude::*;

verus! {

/// Whether `needle` occurs in `hay` starting at `i`.
pub open spec fn spec_match_at(hay: Seq<u8>, needle: Seq<u8>, i: int) -> bool {
    &&& 0 <= i
    &&& i + needle.len() <= hay.len()
    &&& hay.subrange(i, i + needle.len() as int) == needle
}

/// Whether `needle` occurs anywhere in `hay`.
pub open spec fn spec_contains(hay: Seq<u8>, needle: Seq<u8>) -> bool {
    exists|i: int| spec_match_at(hay, needle, i)
}

/// Whether one byte string occurs inside another.
pub fn bytes_contains(hay: &Vec<u8>, needle: &Vec<u8>) -> (r: bool)
    ensures
        r == spec_contains(hay@, needle@),
{
    if needle.len() > hay.len() {
        proof {
            assert forall|k: int| !spec_match_at(hay@, needle@, k) by {}
        }
        return false;
    }
    if needle.len() == 0 {
        proof {
            assert(hay@.subrange(0, 0) =~= needle@);
            assert(spec_match_at(hay@, needle@, 0));
        }
        return true;
    }
    let last: usize = hay.len() - needle.len();
    let mut i: usize = 0;
    proof {
        assert(hay@.len() <= usize::MAX);
    }
    while i <= last
        invariant
            hay@.len() <= usize::MAX,
            needle@.len() > 0,
            needle@.len() <= hay@.len(),
            last == hay@.len() - needle@.len(),
            i <= last + 1,
            forall|k: int| 0 <= k < i as int ==> !spec_match_at(hay@, needle@, k),
        decreases last + 1 - i,
    {
        let mut j: usize = 0;
        let mut matches_here = true;
        proof {
            assert(hay@.subrange(i as int, i as int) =~= needle@.take(0));
        }
        while j < needle.len() && matches_here
            invariant
                hay@.len() <= usize::MAX,
                needle@.len() > 0,
                needle@.len() <= hay@.len(),
                last == hay@.len() - needle@.len(),
                i <= last,
                j <= needle@.len(),
                matches_here == (hay@.subrange(i as int, i + j as int) == needle@.take(j as int)),
            decreases needle@.len() - j,
        {
            if hay[i + j] != needle[j] {
                proof {
                    assert(hay@.subrange(i as int, i + j + 1)[j as int] == hay@[i + j]);
                    assert(needle@.take(j + 1)[j as int] == needle@[j as int]);
                }
                matches_here = false;
            } else {
                proof {
                    assert(hay@.subrange(i as int, i + j + 1) =~= hay@.subrange(
                        i as int,
                        i + j as int,
                    ).push(hay@[i + j]));
                    assert(needle@.take(j + 1) =~= needle@.take(j as int).push(
                        needle@[j as int],
                    ));
                }
            }
            j = j + 1;
        }
        if matches_here {
            if j == needle.len() {
                proof {
                    assert(needle@.take(needle@.len() as int) =~= needle@);
                    assert(spec_match_at(hay@, needle@, i as int));
                }
                return true;
            }
        }
        proof {
            if spec_match_at(hay@, needle@, i as int) {
                assert(hay@.subrange(i as int, i + needle@.len() as int) == needle@);
                assert forall|m: int|
                    0 <= m < j as int implies hay@.subrange(i as int, i + j as int)[m]
                        == needle@.take(j as int)[m] by {
                    assert(hay@.subrange(i as int, i + j as int)[m] == hay@[i + m]);
                    assert(hay@.subrange(i as int, i + needle@.len() as int)[m] == hay@[i + m]);
                    assert(needle@.take(j as int)[m] == needle@[m]);
                }
                assert(hay@.subrange(i as int, i + j as int) =~= needle@.take(j as int));
                assert(false);
            }
        }
        i = i + 1;
    }
    proof {
        assert forall|k: int| !spec_match_at(hay@, needle@, k) by {
            if 0 <= k <= hay@.len() - needle@.len() {
                assert(k < i as int);
            }
        }
    }
    false
}

} // verus!

verus! {

/// The name of a GPU format code, as the bindings crate prints it.
pub uninterp spec fn vk_format_name(code: i32) -> Seq<u8>;

/// Relies on ash::vk::Format's debug formatting: the printed name depends
/// on the format code alone.
#[verifier::external_body]
fn vk_format_debug_name(code: i32) -> (r: Vec<u8>)
    ensures
        r@ == vk_format_name(code),
{
    format!("{:?}", ash::vk::Format::from_raw(code)).into_bytes()
}

// The tags below are ASCII byte sequences; Verus takes no byte-char
// literals, so each byte is written as its code.
/// The sRGB suffix tag.
pub open spec fn spec_srgb_tag() -> Seq<u8> {
    seq![95u8, 83u8, 82u8, 71u8, 66u8]
}

/// The unsigned-normalised suffix tag.
pub open spec fn spec_unorm_tag() -> Seq<u8> {
    seq![95u8, 85u8, 78u8, 79u8, 82u8, 77u8]
}

/// The unsigned-integer suffix tag.
pub open spec fn spec_uint_tag() -> Seq<u8> {
    seq![95u8, 85u8, 73u8, 78u8, 84u8]
}

/// The unsigned-scaled suffix tag.
pub open spec fn spec_uscaled_tag() -> Seq<u8> {
    seq![95u8, 85u8, 83u8, 67u8, 65u8, 76u8, 69u8, 68u8]
}

/// The signed-normalised suffix tag.
pub open spec fn spec_snorm_tag() -> Seq<u8> {
    seq![95u8, 83u8, 78u8, 79u8, 82u8, 77u8]
}

/// The signed-integer suffix tag.
pub open spec fn spec_sint_tag() -> Seq<u8> {
    seq![95u8, 83u8, 73u8, 78u8, 84u8]
}

/// The signed-scaled suffix tag.
pub open spec fn spec_sscaled_tag() -> Seq<u8> {
    seq![95u8, 83u8, 83u8, 67u8, 65u8, 76u8, 69u8, 68u8]
}

/// The transfer function a format name's suffix tag denotes.
pub open spec fn spec_transfer_of_name(name: Seq<u8>) -> Transfer {
    if spec_contains(name, spec_srgb_tag()) {
        Transfer::SRGB
    } else if spec_contains(name, spec_unorm_tag()) {
        Transfer::UNORM
    } else if spec_contains(name, spec_uint_tag()) {
        Transfer::UINT
    } else if spec_contains(name, spec_uscaled_tag()) {
        Transfer::USCALED
    } else if spec_contains(name, spec_snorm_tag()) {
        Transfer::SNORM
    } else if spec_contains(name, spec_sint_tag()) {
        Transfer::SINT
    } else if spec_contains(name, spec_sscaled_tag()) {
        Transfer::SSCALED
    } else {
        Transfer::UNKNOWN
    }
}

/// Reads a GPU format code's transfer function off its name.
pub fn vk_format_get_transfer(vk_format: i32) -> (r: Transfer)
    ensures
        r == spec_transfer_of_name(vk_format_name(vk_format)),
{
    let name = vk_format_debug_name(vk_format);
    let srgb: Vec<u8> = vec![95u8, 83u8, 82u8, 71u8, 66u8];
    if bytes_contains(&name, &srgb) {
        return Transfer::SRGB;
    }
    let unorm: Vec<u8> = vec![95u8, 85u8, 78u8, 79u8, 82u8, 77u8];
    if bytes_contains(&name, &unorm) {
        return Transfer::UNORM;
    }
    let uint: Vec<u8> = vec![95u8, 85u8, 73u8, 78u8, 84u8];
    if bytes_contains(&name, &uint) {
        return Transfer::UINT;
    }
    let uscaled: Vec<u8> = vec![95u8, 85u8, 83u8, 67u8, 65u8, 76u8, 69u8, 68u8];
    if bytes_contains(&name, &uscaled) {
        return Transfer::USCALED;
    }
    let snorm: Vec<u8> = vec![95u8, 83u8, 78u8, 79u8, 82u8, 77u8];
    if bytes_contains(&name, &snorm) {
        return Transfer::SNORM;
    }
    let sint: Vec<u8> = vec![95u8, 83u8, 73u8, 78u8, 84u8];
    if bytes_contains(&name, &sint) {
        return Transfer::SINT;
    }
    let sscaled: Vec<u8> = vec![95u8, 83u8, 83u8, 67u8, 65u8, 76u8, 69u8, 68u8];
    if bytes_contains(&name, &sscaled) {
        return Transfer::SSCALED;
    }
    Transfer::UNKNOWN
}

} // verus!

verus! {

/// One row of the format table: a pixel format, its transfer function,
/// and the GPU format code that carries both.
#[derive(Clone, Copy, Debug, PartialEq, Eq, Structural)]
pub struct VkFormatInfo {
    pub format: Format,
    pub transfer: Transfer,
    pub vk_format: i32,
}

/// The known correspondences between pixel formats and GPU format codes,
/// in lookup order: the four byte-per-channel layouts, the packed
/// ten-bit layouts, and the grey layouts.
pub open spec fn spec_format_table() -> Seq<VkFormatInfo> {
    seq![
        VkFormatInfo { format: Format::BGRA, transfer: Transfer::SINT, vk_format: 49 },
        VkFormatInfo { format: Format::BGRA, transfer: Transfer::SNORM, vk_format: 45 },
        VkFormatInfo { format: Format::BGRA, transfer: Transfer::SRGB, vk_format: 50 },
        VkFormatInfo { format: Format::BGRA, transfer: Transfer::SSCALED, vk_format: 47 },
        VkFormatInfo { format: Format::BGRA, transfer: Transfer::UINT, vk_format: 48 },
        VkFormatInfo { format: Format::BGRA, transfer: Transfer::UNORM, vk_format: 44 },
        VkFormatInfo { format: Format::BGRA, transfer: Transfer::USCALED, vk_format: 46 },
        VkFormatInfo { format: Format::RGBA, transfer: Transfer::SINT, vk_format: 42 },
        VkFormatInfo { format: Format::RGBA, transfer: Transfer::SNORM, vk_format: 38 },
        VkFormatInfo { format: Format::RGBA, transfer: Transfer::SRGB, vk_format: 43 },
        VkFormatInfo { format: Format::RGBA, transfer: Transfer::SSCALED, vk_format: 40 },
        VkFormatInfo { format: Format::RGBA, transfer: Transfer::UINT, vk_format: 41 },
        VkFormatInfo { format: Format::RGBA, transfer: Transfer::UNORM, vk_format: 37 },
        VkFormatInfo { format: Format::RGBA, transfer: Transfer::USCALED, vk_format: 39 },
        VkFormatInfo { format: Format::BGR, transfer: Transfer::SINT, vk_format: 35 },
        VkFormatInfo { format: Format::BGR, transfer: Transfer::SNORM, vk_format: 31 },
        VkFormatInfo { format: Format::BGR, transfer: Transfer::SRGB, vk_format: 36 },
        VkFormatInfo { format: Format::BGR, transfer: Transfer::SSCALED, vk_format: 33 },
        VkFormatInfo { format: Format::BGR, transfer: Transfer::UINT, vk_format: 34 },
        VkFormatInfo { format: Format::BGR, transfer: Transfer::UNORM, vk_format: 30 },
        VkFormatInfo { format: Format::BGR, transfer: Transfer::USCALED, vk_format: 32 },
        VkFormatInfo { format: Format::RGB, transfer: Transfer::SINT, vk_format: 28 },
        VkFormatInfo { format: Format::RGB, transfer: Transfer::SNORM, vk_format: 24 },
        VkFormatInfo { format: Format::RGB, transfer: Transfer::SRGB, vk_format: 29 },
        VkFormatInfo { format: Format::RGB, transfer: Transfer::SSCALED, vk_format: 26 },
        VkFormatInfo { format: Format::RGB, transfer: Transfer::UINT, vk_format: 27 },
        VkFormatInfo { format: Format::RGB, transfer: Transfer::UNORM, vk_format: 23 },
        VkFormatInfo { format: Format::RGB, transfer: Transfer::USCALED, vk_format: 25 },
        VkFormatInfo { format: Format::RGBA_102LE, transfer: Transfer::SINT, vk_format: 69 },
        VkFormatInfo { format: Format::RGBA_102LE, transfer: Transfer::SNORM, vk_format: 65 },
        VkFormatInfo { format: Format::RGBA_102LE, transfer: Transfer::SSCALED, vk_format: 67 },
        VkFormatInfo { format: Format::RGBA_102LE, transfer: Transfer::UINT, vk_format: 68 },
        VkFormatInfo { format: Format::RGBA_102LE, transfer: Transfer::UNORM, vk_format: 64 },
        VkFormatInfo { format: Format::RGBA_102LE, transfer: Transfer::USCALED, vk_format: 66 },
        VkFormatInfo { format: Format::RGBA_102LE, transfer: Transfer::SINT, vk_format: 63 },
        VkFormatInfo { format: Format::RGBA_102LE, transfer: Transfer::SNORM, vk_format: 59 },
        VkFormatInfo { format: Format::RGBA_102LE, transfer: Transfer::SSCALED, vk_format: 61 },
        VkFormatInfo { format: Format::RGBA_102LE, transfer: Transfer::UINT, vk_format: 62 },
        VkFormatInfo { format: Format::RGBA_102LE, transfer: Transfer::UNORM, vk_format: 58 },
        VkFormatInfo { format: Format::RGBA_102LE, transfer: Transfer::USCALED, vk_format: 60 },
        VkFormatInfo { format: Format::GRAY16_LE, transfer: Transfer::SINT, vk_format: 75 },
        VkFormatInfo { format: Format::GRAY16_LE, transfer: Transfer::SNORM, vk_format: 71 },
        VkFormatInfo { format: Format::GRAY16_LE, transfer: Transfer::SSCALED, vk_format: 73 },
        VkFormatInfo { format: Format::GRAY16_LE, transfer: Transfer::UINT, vk_format: 74 },
        VkFormatInfo { format: Format::GRAY16_LE, transfer: Transfer::UNORM, vk_format: 70 },
        VkFormatInfo { format: Format::GRAY16_LE, transfer: Transfer::USCALED, vk_format: 72 },
        VkFormatInfo { format: Format::GRAY16_BE, transfer: Transfer::SINT, vk_format: 75 },
        VkFormatInfo { format: Format::GRAY16_BE, transfer: Transfer::SNORM, vk_format: 71 },
        VkFormatInfo { format: Format::GRAY16_BE, transfer: Transfer::SSCALED, vk_format: 73 },
        VkFormatInfo { format: Format::GRAY16_BE, transfer: Transfer::UINT, vk_format: 74 },
        VkFormatInfo { format: Format::GRAY16_BE, transfer: Transfer::UNORM, vk_format: 70 },
        VkFormatInfo { format: Format::GRAY16_BE, transfer: Transfer::USCALED, vk_format: 72 },
        VkFormatInfo { format: Format::GRAY8, transfer: Transfer::SINT, vk_format: 14 },
        VkFormatInfo { format: Format::GRAY8, transfer: Transfer::SNORM, vk_format: 10 },
        VkFormatInfo { format: Format::GRAY8, transfer: Transfer::SRGB, vk_format: 15 },
        VkFormatInfo { format: Format::GRAY8, transfer: Transfer::SSCALED, vk_format: 12 },
        VkFormatInfo { format: Format::GRAY8, transfer: Transfer::UINT, vk_format: 13 },
        VkFormatInfo { format: Format::GRAY8, transfer: Transfer::UNORM, vk_format: 9 },
        VkFormatInfo { format: Format::GRAY8, transfer: Transfer::USCALED, vk_format: 11 },
    ]
}

/// Builds the format table, in its lookup order.
pub fn vk_format_info_table() -> (r: Vec<VkFormatInfo>)
    ensures
        r@ == spec_format_table(),
{
    vec![
        VkFormatInfo { format: Format::BGRA, transfer: Transfer::SINT, vk_format: 49 },
        VkFormatInfo { format: Format::BGRA, transfer: Transfer::SNORM, vk_format: 45 },
        VkFormatInfo { format: Format::BGRA, transfer: Transfer::SRGB, vk_format: 50 },
        VkFormatInfo { format: Format::BGRA, transfer: Transfer::SSCALED, vk_format: 47 },
        VkFormatInfo { format: Format::BGRA, transfer: Transfer::UINT, vk_format: 48 },
        VkFormatInfo { format: Format::BGRA, transfer: Transfer::UNORM, vk_format: 44 },
        VkFormatInfo { format: Format::BGRA, transfer: Transfer::USCALED, vk_format: 46 },
        VkFormatInfo { format: Format::RGBA, transfer: Transfer::SINT, vk_format: 42 },
        VkFormatInfo { format: Format::RGBA, transfer: Transfer::SNORM, vk_format: 38 },
        VkFormatInfo { format: Format::RGBA, transfer: Transfer::SRGB, vk_format: 43 },
        VkFormatInfo { format: Format::RGBA, transfer: Transfer::SSCALED, vk_format: 40 },
        VkFormatInfo { format: Format::RGBA, transfer: Transfer::UINT, vk_format: 41 },
        VkFormatInfo { format: Format::RGBA, transfer: Transfer::UNORM, vk_format: 37 },
        VkFormatInfo { format: Format::RGBA, transfer: Transfer::USCALED, vk_format: 39 },
        VkFormatInfo { format: Format::BGR, transfer: Transfer::SINT, vk_format: 35 },
        VkFormatInfo { format: Format::BGR, transfer: Transfer::SNORM, vk_format: 31 },
        VkFormatInfo { format: Format::BGR, transfer: Transfer::SRGB, vk_format: 36 },
        VkFormatInfo { format: Format::BGR, transfer: Transfer::SSCALED, vk_format: 33 },
        VkFormatInfo { format: Format::BGR, transfer: Transfer::UINT, vk_format: 34 },
        VkFormatInfo { format: Format::BGR, transfer: Transfer::UNORM, vk_format: 30 },
        VkFormatInfo { format: Format::BGR, transfer: Transfer::USCALED, vk_format: 32 },
        VkFormatInfo { format: Format::RGB, transfer: Transfer::SINT, vk_format: 28 },
        VkFormatInfo { format: Format::RGB, transfer: Transfer::SNORM, vk_format: 24 },
        VkFormatInfo { format: Format::RGB, transfer: Transfer::SRGB, vk_format: 29 },
        VkFormatInfo { format: Format::RGB, transfer: Transfer::SSCALED, vk_format: 26 },
        VkFormatInfo { format: Format::RGB, transfer: Transfer::UINT, vk_format: 27 },
        VkFormatInfo { format: Format::RGB, transfer: Transfer::UNORM, vk_format: 23 },
        VkFormatInfo { format: Format::RGB, transfer: Transfer::USCALED, vk_format: 25 },
        VkFormatInfo { format: Format::RGBA_102LE, transfer: Transfer::SINT, vk_format: 69 },
        VkFormatInfo { format: Format::RGBA_102LE, transfer: Transfer::SNORM, vk_format: 65 },
        VkFormatInfo { format: Format::RGBA_102LE, transfer: Transfer::SSCALED, vk_format: 67 },
        VkFormatInfo { format: Format::RGBA_102LE, transfer: Transfer::UINT, vk_format: 68 },
        VkFormatInfo { format: Format::RGBA_102LE, transfer: Transfer::UNORM, vk_format: 64 },
        VkFormatInfo { format: Format::RGBA_102LE, transfer: Transfer::USCALED, vk_format: 66 },
        VkFormatInfo { format: Format::RGBA_102LE, transfer: Transfer::SINT, vk_format: 63 },
        VkFormatInfo { format: Format::RGBA_102LE, transfer: Transfer::SNORM, vk_format: 59 },
        VkFormatInfo { format: Format::RGBA_102LE, transfer: Transfer::SSCALED, vk_format: 61 },
        VkFormatInfo { format: Format::RGBA_102LE, transfer: Transfer::UINT, vk_format: 62 },
        VkFormatInfo { format: Format::RGBA_102LE, transfer: Transfer::UNORM, vk_format: 58 },
        VkFormatInfo { format: Format::RGBA_102LE, transfer: Transfer::USCALED, vk_format: 60 },
        VkFormatInfo { format: Format::GRAY16_LE, transfer: Transfer::SINT, vk_format: 75 },
        VkFormatInfo { format: Format::GRAY16_LE, transfer: Transfer::SNORM, vk_format: 71 },
        VkFormatInfo { format: Format::GRAY16_LE, transfer: Transfer::SSCALED, vk_format: 73 },
        VkFormatInfo { format: Format::GRAY16_LE, transfer: Transfer::UINT, vk_format: 74 },
        VkFormatInfo { format: Format::GRAY16_LE, transfer: Transfer::UNORM, vk_format: 70 },
        VkFormatInfo { format: Format::GRAY16_LE, transfer: Transfer::USCALED, vk_format: 72 },
        VkFormatInfo { format: Format::GRAY16_BE, transfer: Transfer::SINT, vk_format: 75 },
        VkFormatInfo { format: Format::GRAY16_BE, transfer: Transfer::SNORM, vk_format: 71 },
        VkFormatInfo { format: Format::GRAY16_BE, transfer: Transfer::SSCALED, vk_format: 73 },
        VkFormatInfo { format: Format::GRAY16_BE, transfer: Transfer::UINT, vk_format: 74 },
        VkFormatInfo { format: Format::GRAY16_BE, transfer: Transfer::UNORM, vk_format: 70 },
        VkFormatInfo { format: Format::GRAY16_BE, transfer: Transfer::USCALED, vk_format: 72 },
        VkFormatInfo { format: Format::GRAY8, transfer: Transfer::SINT, vk_format: 14 },
        VkFormatInfo { format: Format::GRAY8, transfer: Transfer::SNORM, vk_format: 10 },
        VkFormatInfo { format: Format::GRAY8, transfer: Transfer::SRGB, vk_format: 15 },
        VkFormatInfo { format: Format::GRAY8, transfer: Transfer::SSCALED, vk_format: 12 },
        VkFormatInfo { format: Format::GRAY8, transfer: Transfer::UINT, vk_format: 13 },
        VkFormatInfo { format: Format::GRAY8, transfer: Transfer::UNORM, vk_format: 9 },
        VkFormatInfo { format: Format::GRAY8, transfer: Transfer::USCALED, vk_format: 11 },
    ]
}

/// The first table row carrying the given GPU format code, if any.
pub open spec fn spec_info_by_code(table: Seq<VkFormatInfo>, vk_format: i32) -> Option<
    VkFormatInfo,
>
    decreases table.len(),
{
    if table.len() == 0 {
        None
    } else if table[0].vk_format == vk_format {
        Some(table[0])
    } else {
        spec_info_by_code(table.skip(1), vk_format)
    }
}

/// The first table row carrying the given format and transfer, if any.
pub open spec fn spec_info_by_client(
    table: Seq<VkFormatInfo>,
    format: Format,
    transfer: Transfer,
) -> Option<VkFormatInfo>
    decreases table.len(),
{
    if table.len() == 0 {
        None
    } else if table[0].format == format && table[0].transfer == transfer {
        Some(table[0])
    } else {
        spec_info_by_client(table.skip(1), format, transfer)
    }
}

/// Looks a GPU format code up in the table; a code the table does not
/// carry keeps its code, reads its transfer function off its name, and
/// maps to the unknown pixel format.
pub fn vk_format_get_info(vk_format: i32) -> (r: VkFormatInfo)
    ensures
        match spec_info_by_code(spec_format_table(), vk_format) {
            Some(info) => r == info,
            None => r == (VkFormatInfo {
                format: Format::UNKNOWN,
                transfer: spec_transfer_of_name(vk_format_name(vk_format)),
                vk_format,
            }),
        },
{
    let table = vk_format_info_table();
    let mut i: usize = 0;
    proof {
        assert(table@.skip(0) =~= table@);
    }
    while i < table.len()
        invariant
            table@ == spec_format_table(),
            i <= table@.len(),
            spec_info_by_code(spec_format_table(), vk_format) == spec_info_by_code(
                table@.skip(i as int),
                vk_format,
            ),
        decreases table@.len() - i,
    {
        proof {
            assert(table@.skip(i as int)[0] == table@[i as int]);
            assert(table@.skip(i as int).skip(1) =~= table@.skip(i + 1));
        }
        if table[i].vk_format == vk_format {
            return table[i];
        }
        i = i + 1;
    }
    proof {
        assert(table@.skip(i as int) =~= Seq::<VkFormatInfo>::empty());
    }
    VkFormatInfo {
        format: Format::UNKNOWN,
        transfer: vk_format_get_transfer(vk_format),
        vk_format,
    }
}

/// Looks a pixel format and transfer function up in the table; a pair the
/// table does not carry maps to the undefined GPU format code.
pub fn client_format_get_info(format: Format, transfer: Transfer) -> (r: VkFormatInfo)
    ensures
        match spec_info_by_client(spec_format_table(), format, transfer) {
            Some(info) => r == info,
            None => r == (VkFormatInfo { format, transfer, vk_format: 0 }),
        },
{
    let table = vk_format_info_table();
    let mut i: usize = 0;
    proof {
        assert(table@.skip(0) =~= table@);
    }
    while i < table.len()
        invariant
            table@ == spec_format_table(),
            i <= table@.len(),
            spec_info_by_client(spec_format_table(), format, transfer) == spec_info_by_client(
                table@.skip(i as int),
                format,
                transfer,
            ),
        decreases table@.len() - i,
    {
        proof {
            assert(table@.skip(i as int)[0] == table@[i as int]);
            assert(table@.skip(i as int).skip(1) =~= table@.skip(i + 1));
        }
        if table[i].format == format && table[i].transfer == transfer {
            return table[i];
        }
        i = i + 1;
    }
    proof {
        assert(table@.skip(i as int) =~= Seq::<VkFormatInfo>::empty());
    }
    VkFormatInfo { format, transfer, vk_format: 0 }
}

} // verus!
