//! Pixel formats of the raw-video negotiation protocol.
//!
//! The variant order mirrors the protocol's raw-video format enumeration, so
//! a format's wire code is its position in this declaration.

use vstd::prelude::*;

verus! {

/// A pixel format together with its transfer function.
pub struct FormatDescriptor(pub Format, pub Transfer);

/// Raw-video pixel format, in the wire order of the negotiation protocol.
#[allow(non_camel_case_types)]
#[derive(Clone, Copy, Debug, PartialEq, Eq, Structural)]
pub enum Format {
    UNKNOWN,
    ENCODED,
    I420,
    YV12,
    YUY2,
    UYVY,
    AYUV,
    RGBx,
    BGRx,
    xRGB,
    xBGR,
    RGBA,
    BGRA,
    ARGB,
    ABGR,
    RGB,
    BGR,
    Y41B,
    Y42B,
    YVYU,
    Y444,
    v210,
    v216,
    NV12,
    NV21,
    GRAY8,
    GRAY16_BE,
    GRAY16_LE,
    v308,
    RGB16,
    BGR16,
    RGB15,
    BGR15,
    UYVP,
    A420,
    RGB8P,
    YUV9,
    YVU9,
    IYU1,
    ARGB64,
    AYUV64,
    r210,
    I420_10BE,
    I420_10LE,
    I422_10BE,
    I422_10LE,
    Y444_10BE,
    Y444_10LE,
    GBR,
    GBR_10BE,
    GBR_10LE,
    NV16,
    NV24,
    NV12_64Z32,
    A420_10BE,
    A420_10LE,
    A422_10BE,
    A422_10LE,
    A444_10BE,
    A444_10LE,
    NV61,
    P010_10BE,
    P010_10LE,
    IYU2,
    VYUY,
    GBRA,
    GBRA_10BE,
    GBRA_10LE,
    GBR_12BE,
    GBR_12LE,
    GBRA_12BE,
    GBRA_12LE,
    I420_12BE,
    I420_12LE,
    I422_12BE,
    I422_12LE,
    Y444_12BE,
    Y444_12LE,
    RGBA_F16,
    RGBA_F32,
    xRGB_210LE,
    xBGR_210LE,
    RGBx_102LE,
    BGRx_102LE,
    ARGB_210LE,
    ABGR_210LE,
    RGBA_102LE,
    BGRA_102LE,
}

impl Format {
    /// The wire code of this format.
    pub open spec fn code(self) -> u32 {
        match self {
            Format::UNKNOWN => 0,
            Format::ENCODED => 1,
            Format::I420 => 2,
            Format::YV12 => 3,
            Format::YUY2 => 4,
            Format::UYVY => 5,
            Format::AYUV => 6,
            Format::RGBx => 7,
            Format::BGRx => 8,
            Format::xRGB => 9,
            Format::xBGR => 10,
            Format::RGBA => 11,
            Format::BGRA => 12,
            Format::ARGB => 13,
            Format::ABGR => 14,
            Format::RGB => 15,
            Format::BGR => 16,
            Format::Y41B => 17,
            Format::Y42B => 18,
            Format::YVYU => 19,
            Format::Y444 => 20,
            Format::v210 => 21,
            Format::v216 => 22,
            Format::NV12 => 23,
            Format::NV21 => 24,
            Format::GRAY8 => 25,
            Format::GRAY16_BE => 26,
            Format::GRAY16_LE => 27,
            Format::v308 => 28,
            Format::RGB16 => 29,
            Format::BGR16 => 30,
            Format::RGB15 => 31,
            Format::BGR15 => 32,
            Format::UYVP => 33,
            Format::A420 => 34,
            Format::RGB8P => 35,
            Format::YUV9 => 36,
            Format::YVU9 => 37,
            Format::IYU1 => 38,
            Format::ARGB64 => 39,
            Format::AYUV64 => 40,
            Format::r210 => 41,
            Format::I420_10BE => 42,
            Format::I420_10LE => 43,
            Format::I422_10BE => 44,
            Format::I422_10LE => 45,
            Format::Y444_10BE => 46,
            Format::Y444_10LE => 47,
            Format::GBR => 48,
            Format::GBR_10BE => 49,
            Format::GBR_10LE => 50,
            Format::NV16 => 51,
            Format::NV24 => 52,
            Format::NV12_64Z32 => 53,
            Format::A420_10BE => 54,
            Format::A420_10LE => 55,
            Format::A422_10BE => 56,
            Format::A422_10LE => 57,
            Format::A444_10BE => 58,
            Format::A444_10LE => 59,
            Format::NV61 => 60,
            Format::P010_10BE => 61,
            Format::P010_10LE => 62,
            Format::IYU2 => 63,
            Format::VYUY => 64,
            Format::GBRA => 65,
            Format::GBRA_10BE => 66,
            Format::GBRA_10LE => 67,
            Format::GBR_12BE => 68,
            Format::GBR_12LE => 69,
            Format::GBRA_12BE => 70,
            Format::GBRA_12LE => 71,
            Format::I420_12BE => 72,
            Format::I420_12LE => 73,
            Format::I422_12BE => 74,
            Format::I422_12LE => 75,
            Format::Y444_12BE => 76,
            Format::Y444_12LE => 77,
            Format::RGBA_F16 => 78,
            Format::RGBA_F32 => 79,
            Format::xRGB_210LE => 80,
            Format::xBGR_210LE => 81,
            Format::RGBx_102LE => 82,
            Format::BGRx_102LE => 83,
            Format::ARGB_210LE => 84,
            Format::ABGR_210LE => 85,
            Format::RGBA_102LE => 86,
            Format::BGRA_102LE => 87,
        }
    }

    /// The format a wire code denotes; codes past the table fall back to
    /// `UNKNOWN`, mirroring the protocol's treatment of unrecognised codes.
    pub open spec fn spec_from_code(raw: u32) -> Format {
        match raw {
            0u32 => Format::UNKNOWN,
            1u32 => Format::ENCODED,
            2u32 => Format::I420,
            3u32 => Format::YV12,
            4u32 => Format::YUY2,
            5u32 => Format::UYVY,
            6u32 => Format::AYUV,
            7u32 => Format::RGBx,
            8u32 => Format::BGRx,
            9u32 => Format::xRGB,
            10u32 => Format::xBGR,
            11u32 => Format::RGBA,
            12u32 => Format::BGRA,
            13u32 => Format::ARGB,
            14u32 => Format::ABGR,
            15u32 => Format::RGB,
            16u32 => Format::BGR,
            17u32 => Format::Y41B,
            18u32 => Format::Y42B,
            19u32 => Format::YVYU,
            20u32 => Format::Y444,
            21u32 => Format::v210,
            22u32 => Format::v216,
            23u32 => Format::NV12,
            24u32 => Format::NV21,
            25u32 => Format::GRAY8,
            26u32 => Format::GRAY16_BE,
            27u32 => Format::GRAY16_LE,
            28u32 => Format::v308,
            29u32 => Format::RGB16,
            30u32 => Format::BGR16,
            31u32 => Format::RGB15,
            32u32 => Format::BGR15,
            33u32 => Format::UYVP,
            34u32 => Format::A420,
            35u32 => Format::RGB8P,
            36u32 => Format::YUV9,
            37u32 => Format::YVU9,
            38u32 => Format::IYU1,
            39u32 => Format::ARGB64,
            40u32 => Format::AYUV64,
            41u32 => Format::r210,
            42u32 => Format::I420_10BE,
            43u32 => Format::I420_10LE,
            44u32 => Format::I422_10BE,
            45u32 => Format::I422_10LE,
            46u32 => Format::Y444_10BE,
            47u32 => Format::Y444_10LE,
            48u32 => Format::GBR,
            49u32 => Format::GBR_10BE,
            50u32 => Format::GBR_10LE,
            51u32 => Format::NV16,
            52u32 => Format::NV24,
            53u32 => Format::NV12_64Z32,
            54u32 => Format::A420_10BE,
            55u32 => Format::A420_10LE,
            56u32 => Format::A422_10BE,
            57u32 => Format::A422_10LE,
            58u32 => Format::A444_10BE,
            59u32 => Format::A444_10LE,
            60u32 => Format::NV61,
            61u32 => Format::P010_10BE,
            62u32 => Format::P010_10LE,
            63u32 => Format::IYU2,
            64u32 => Format::VYUY,
            65u32 => Format::GBRA,
            66u32 => Format::GBRA_10BE,
            67u32 => Format::GBRA_10LE,
            68u32 => Format::GBR_12BE,
            69u32 => Format::GBR_12LE,
            70u32 => Format::GBRA_12BE,
            71u32 => Format::GBRA_12LE,
            72u32 => Format::I420_12BE,
            73u32 => Format::I420_12LE,
            74u32 => Format::I422_12BE,
            75u32 => Format::I422_12LE,
            76u32 => Format::Y444_12BE,
            77u32 => Format::Y444_12LE,
            78u32 => Format::RGBA_F16,
            79u32 => Format::RGBA_F32,
            80u32 => Format::xRGB_210LE,
            81u32 => Format::xBGR_210LE,
            82u32 => Format::RGBx_102LE,
            83u32 => Format::BGRx_102LE,
            84u32 => Format::ARGB_210LE,
            85u32 => Format::ABGR_210LE,
            86u32 => Format::RGBA_102LE,
            87u32 => Format::BGRA_102LE,
            _ => Format::UNKNOWN,
        }
    }

    /// Encodes this format as its wire code.
    pub fn to_raw(self) -> (r: u32)
        ensures
            r == self.code(),
    {
        match self {
            Format::UNKNOWN => 0,
            Format::ENCODED => 1,
            Format::I420 => 2,
            Format::YV12 => 3,
            Format::YUY2 => 4,
            Format::UYVY => 5,
            Format::AYUV => 6,
            Format::RGBx => 7,
            Format::BGRx => 8,
            Format::xRGB => 9,
            Format::xBGR => 10,
            Format::RGBA => 11,
            Format::BGRA => 12,
            Format::ARGB => 13,
            Format::ABGR => 14,
            Format::RGB => 15,
            Format::BGR => 16,
            Format::Y41B => 17,
            Format::Y42B => 18,
            Format::YVYU => 19,
            Format::Y444 => 20,
            Format::v210 => 21,
            Format::v216 => 22,
            Format::NV12 => 23,
            Format::NV21 => 24,
            Format::GRAY8 => 25,
            Format::GRAY16_BE => 26,
            Format::GRAY16_LE => 27,
            Format::v308 => 28,
            Format::RGB16 => 29,
            Format::BGR16 => 30,
            Format::RGB15 => 31,
            Format::BGR15 => 32,
            Format::UYVP => 33,
            Format::A420 => 34,
            Format::RGB8P => 35,
            Format::YUV9 => 36,
            Format::YVU9 => 37,
            Format::IYU1 => 38,
            Format::ARGB64 => 39,
            Format::AYUV64 => 40,
            Format::r210 => 41,
            Format::I420_10BE => 42,
            Format::I420_10LE => 43,
            Format::I422_10BE => 44,
            Format::I422_10LE => 45,
            Format::Y444_10BE => 46,
            Format::Y444_10LE => 47,
            Format::GBR => 48,
            Format::GBR_10BE => 49,
            Format::GBR_10LE => 50,
            Format::NV16 => 51,
            Format::NV24 => 52,
            Format::NV12_64Z32 => 53,
            Format::A420_10BE => 54,
            Format::A420_10LE => 55,
            Format::A422_10BE => 56,
            Format::A422_10LE => 57,
            Format::A444_10BE => 58,
            Format::A444_10LE => 59,
            Format::NV61 => 60,
            Format::P010_10BE => 61,
            Format::P010_10LE => 62,
            Format::IYU2 => 63,
            Format::VYUY => 64,
            Format::GBRA => 65,
            Format::GBRA_10BE => 66,
            Format::GBRA_10LE => 67,
            Format::GBR_12BE => 68,
            Format::GBR_12LE => 69,
            Format::GBRA_12BE => 70,
            Format::GBRA_12LE => 71,
            Format::I420_12BE => 72,
            Format::I420_12LE => 73,
            Format::I422_12BE => 74,
            Format::I422_12LE => 75,
            Format::Y444_12BE => 76,
            Format::Y444_12LE => 77,
            Format::RGBA_F16 => 78,
            Format::RGBA_F32 => 79,
            Format::xRGB_210LE => 80,
            Format::xBGR_210LE => 81,
            Format::RGBx_102LE => 82,
            Format::BGRx_102LE => 83,
            Format::ARGB_210LE => 84,
            Format::ABGR_210LE => 85,
            Format::RGBA_102LE => 86,
            Format::BGRA_102LE => 87,
        }
    }

    /// Decodes a wire code; unrecognised codes become `UNKNOWN`.
    pub fn from_raw(raw: u32) -> (r: Format)
        ensures
            r == Format::spec_from_code(raw),
    {
        match raw {
            0u32 => Format::UNKNOWN,
            1u32 => Format::ENCODED,
            2u32 => Format::I420,
            3u32 => Format::YV12,
            4u32 => Format::YUY2,
            5u32 => Format::UYVY,
            6u32 => Format::AYUV,
            7u32 => Format::RGBx,
            8u32 => Format::BGRx,
            9u32 => Format::xRGB,
            10u32 => Format::xBGR,
            11u32 => Format::RGBA,
            12u32 => Format::BGRA,
            13u32 => Format::ARGB,
            14u32 => Format::ABGR,
            15u32 => Format::RGB,
            16u32 => Format::BGR,
            17u32 => Format::Y41B,
            18u32 => Format::Y42B,
            19u32 => Format::YVYU,
            20u32 => Format::Y444,
            21u32 => Format::v210,
            22u32 => Format::v216,
            23u32 => Format::NV12,
            24u32 => Format::NV21,
            25u32 => Format::GRAY8,
            26u32 => Format::GRAY16_BE,
            27u32 => Format::GRAY16_LE,
            28u32 => Format::v308,
            29u32 => Format::RGB16,
            30u32 => Format::BGR16,
            31u32 => Format::RGB15,
            32u32 => Format::BGR15,
            33u32 => Format::UYVP,
            34u32 => Format::A420,
            35u32 => Format::RGB8P,
            36u32 => Format::YUV9,
            37u32 => Format::YVU9,
            38u32 => Format::IYU1,
            39u32 => Format::ARGB64,
            40u32 => Format::AYUV64,
            41u32 => Format::r210,
            42u32 => Format::I420_10BE,
            43u32 => Format::I420_10LE,
            44u32 => Format::I422_10BE,
            45u32 => Format::I422_10LE,
            46u32 => Format::Y444_10BE,
            47u32 => Format::Y444_10LE,
            48u32 => Format::GBR,
            49u32 => Format::GBR_10BE,
            50u32 => Format::GBR_10LE,
            51u32 => Format::NV16,
            52u32 => Format::NV24,
            53u32 => Format::NV12_64Z32,
            54u32 => Format::A420_10BE,
            55u32 => Format::A420_10LE,
            56u32 => Format::A422_10BE,
            57u32 => Format::A422_10LE,
            58u32 => Format::A444_10BE,
            59u32 => Format::A444_10LE,
            60u32 => Format::NV61,
            61u32 => Format::P010_10BE,
            62u32 => Format::P010_10LE,
            63u32 => Format::IYU2,
            64u32 => Format::VYUY,
            65u32 => Format::GBRA,
            66u32 => Format::GBRA_10BE,
            67u32 => Format::GBRA_10LE,
            68u32 => Format::GBR_12BE,
            69u32 => Format::GBR_12LE,
            70u32 => Format::GBRA_12BE,
            71u32 => Format::GBRA_12LE,
            72u32 => Format::I420_12BE,
            73u32 => Format::I420_12LE,
            74u32 => Format::I422_12BE,
            75u32 => Format::I422_12LE,
            76u32 => Format::Y444_12BE,
            77u32 => Format::Y444_12LE,
            78u32 => Format::RGBA_F16,
            79u32 => Format::RGBA_F32,
            80u32 => Format::xRGB_210LE,
            81u32 => Format::xBGR_210LE,
            82u32 => Format::RGBx_102LE,
            83u32 => Format::BGRx_102LE,
            84u32 => Format::ARGB_210LE,
            85u32 => Format::ABGR_210LE,
            86u32 => Format::RGBA_102LE,
            87u32 => Format::BGRA_102LE,
            _ => Format::UNKNOWN,
        }
    }
}

/// Decoding a format's own wire code yields the format back.
pub proof fn lemma_format_code_round_trip(f: Format)
    ensures
        Format::spec_from_code(f.code()) == f,
{
}

impl Default for Format {
    /// The default format carries no information.
    fn default() -> (r: Self)
        ensures
            r == Format::UNKNOWN,
    {
        Format::UNKNOWN
    }
}

/// Transfer function of a pixel format.
#[derive(Clone, Copy, Debug, PartialEq, Eq, Structural)]
pub enum Transfer {
    UNKNOWN,
    SRGB,
    UNORM,
    SNORM,
    UINT,
    SINT,
    USCALED,
    SSCALED,
    UFLOAT,
    SFLOAT,
}

} // verus!
