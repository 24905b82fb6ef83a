use pw_capture_client::Format;

#[test]
fn format_value() {
    assert_eq!(0u32, Format::UNKNOWN.to_raw());
    assert_eq!(1u32, Format::ENCODED.to_raw());
    assert_eq!(2u32, Format::I420.to_raw());
    assert_eq!(3u32, Format::YV12.to_raw());
    assert_eq!(4u32, Format::YUY2.to_raw());
    assert_eq!(5u32, Format::UYVY.to_raw());
    assert_eq!(6u32, Format::AYUV.to_raw());
    assert_eq!(7u32, Format::RGBx.to_raw());
    assert_eq!(8u32, Format::BGRx.to_raw());
    assert_eq!(9u32, Format::xRGB.to_raw());
    assert_eq!(10u32, Format::xBGR.to_raw());
    assert_eq!(11u32, Format::RGBA.to_raw());
    assert_eq!(12u32, Format::BGRA.to_raw());
    assert_eq!(13u32, Format::ARGB.to_raw());
    assert_eq!(14u32, Format::ABGR.to_raw());
    assert_eq!(15u32, Format::RGB.to_raw());
    assert_eq!(16u32, Format::BGR.to_raw());
    assert_eq!(17u32, Format::Y41B.to_raw());
    assert_eq!(18u32, Format::Y42B.to_raw());
    assert_eq!(19u32, Format::YVYU.to_raw());
    assert_eq!(20u32, Format::Y444.to_raw());
    assert_eq!(21u32, Format::v210.to_raw());
    assert_eq!(22u32, Format::v216.to_raw());
    assert_eq!(23u32, Format::NV12.to_raw());
    assert_eq!(24u32, Format::NV21.to_raw());
    assert_eq!(25u32, Format::GRAY8.to_raw());
    assert_eq!(26u32, Format::GRAY16_BE.to_raw());
    assert_eq!(27u32, Format::GRAY16_LE.to_raw());
    assert_eq!(28u32, Format::v308.to_raw());
    assert_eq!(29u32, Format::RGB16.to_raw());
    assert_eq!(30u32, Format::BGR16.to_raw());
    assert_eq!(31u32, Format::RGB15.to_raw());
    assert_eq!(32u32, Format::BGR15.to_raw());
    assert_eq!(33u32, Format::UYVP.to_raw());
    assert_eq!(34u32, Format::A420.to_raw());
    assert_eq!(35u32, Format::RGB8P.to_raw());
    assert_eq!(36u32, Format::YUV9.to_raw());
    assert_eq!(37u32, Format::YVU9.to_raw());
    assert_eq!(38u32, Format::IYU1.to_raw());
    assert_eq!(39u32, Format::ARGB64.to_raw());
    assert_eq!(40u32, Format::AYUV64.to_raw());
    assert_eq!(41u32, Format::r210.to_raw());
    assert_eq!(42u32, Format::I420_10BE.to_raw());
    assert_eq!(43u32, Format::I420_10LE.to_raw());
    assert_eq!(44u32, Format::I422_10BE.to_raw());
    assert_eq!(45u32, Format::I422_10LE.to_raw());
    assert_eq!(46u32, Format::Y444_10BE.to_raw());
    assert_eq!(47u32, Format::Y444_10LE.to_raw());
    assert_eq!(48u32, Format::GBR.to_raw());
    assert_eq!(49u32, Format::GBR_10BE.to_raw());
    assert_eq!(50u32, Format::GBR_10LE.to_raw());
    assert_eq!(51u32, Format::NV16.to_raw());
    assert_eq!(52u32, Format::NV24.to_raw());
    assert_eq!(53u32, Format::NV12_64Z32.to_raw());
    assert_eq!(54u32, Format::A420_10BE.to_raw());
    assert_eq!(55u32, Format::A420_10LE.to_raw());
    assert_eq!(56u32, Format::A422_10BE.to_raw());
    assert_eq!(57u32, Format::A422_10LE.to_raw());
    assert_eq!(58u32, Format::A444_10BE.to_raw());
    assert_eq!(59u32, Format::A444_10LE.to_raw());
    assert_eq!(60u32, Format::NV61.to_raw());
    assert_eq!(61u32, Format::P010_10BE.to_raw());
    assert_eq!(62u32, Format::P010_10LE.to_raw());
    assert_eq!(63u32, Format::IYU2.to_raw());
    assert_eq!(64u32, Format::VYUY.to_raw());
    assert_eq!(65u32, Format::GBRA.to_raw());
    assert_eq!(66u32, Format::GBRA_10BE.to_raw());
    assert_eq!(67u32, Format::GBRA_10LE.to_raw());
    assert_eq!(68u32, Format::GBR_12BE.to_raw());
    assert_eq!(69u32, Format::GBR_12LE.to_raw());
    assert_eq!(70u32, Format::GBRA_12BE.to_raw());
    assert_eq!(71u32, Format::GBRA_12LE.to_raw());
    assert_eq!(72u32, Format::I420_12BE.to_raw());
    assert_eq!(73u32, Format::I420_12LE.to_raw());
    assert_eq!(74u32, Format::I422_12BE.to_raw());
    assert_eq!(75u32, Format::I422_12LE.to_raw());
    assert_eq!(76u32, Format::Y444_12BE.to_raw());
    assert_eq!(77u32, Format::Y444_12LE.to_raw());
    assert_eq!(78u32, Format::RGBA_F16.to_raw());
    assert_eq!(79u32, Format::RGBA_F32.to_raw());
    assert_eq!(80u32, Format::xRGB_210LE.to_raw());
    assert_eq!(81u32, Format::xBGR_210LE.to_raw());
    assert_eq!(82u32, Format::RGBx_102LE.to_raw());
    assert_eq!(83u32, Format::BGRx_102LE.to_raw());
    assert_eq!(84u32, Format::ARGB_210LE.to_raw());
    assert_eq!(85u32, Format::ABGR_210LE.to_raw());
    assert_eq!(86u32, Format::RGBA_102LE.to_raw());
    assert_eq!(87u32, Format::BGRA_102LE.to_raw());
}

#[test]
fn format_round_trip() {
    let mut code: u32 = 0;
    while code < 88 {
        let format = Format::from_raw(code);
        assert_eq!(code, format.to_raw());
        code += 1;
    }
}

#[test]
fn format_unknown_code() {
    assert_eq!(Format::from_raw(88), Format::UNKNOWN);
    assert_eq!(Format::from_raw(9999), Format::UNKNOWN);
}

#[test]
fn format_default() {
    assert_eq!(Format::default(), Format::UNKNOWN);
}
