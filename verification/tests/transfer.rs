use ash::vk;
use pw_capture_client::Transfer;
use pw_capture_client::vk_format_get_transfer;

#[test]
fn get_transfer() {
    let transfer = vk_format_get_transfer(vk::Format::B8G8R8A8_SRGB.as_raw());
    assert_eq!(Transfer::SRGB, transfer);
    let transfer = vk_format_get_transfer(vk::Format::B8G8R8A8_UNORM.as_raw());
    assert_eq!(Transfer::UNORM, transfer);
    let transfer = vk_format_get_transfer(vk::Format::B8G8R8A8_UINT.as_raw());
    assert_eq!(Transfer::UINT, transfer);
    let transfer = vk_format_get_transfer(vk::Format::B8G8R8A8_USCALED.as_raw());
    assert_eq!(Transfer::USCALED, transfer);
    let transfer = vk_format_get_transfer(vk::Format::B8G8R8A8_SNORM.as_raw());
    assert_eq!(Transfer::SNORM, transfer);
    let transfer = vk_format_get_transfer(vk::Format::B8G8R8A8_SINT.as_raw());
    assert_eq!(Transfer::SINT, transfer);
    let transfer = vk_format_get_transfer(vk::Format::B8G8R8A8_SSCALED.as_raw());
    assert_eq!(Transfer::SSCALED, transfer);
    let transfer =
        vk_format_get_transfer(vk::Format::G12X4_B12X4_R12X4_3PLANE_420_UNORM_3PACK16.as_raw());
    assert_eq!(Transfer::UNORM, transfer);
}

#[test]
fn get_transfer_untagged() {
    let transfer = vk_format_get_transfer(vk::Format::UNDEFINED.as_raw());
    assert_eq!(Transfer::UNKNOWN, transfer);
}

#[test]
fn get_info_by_code() {
    let info = pw_capture_client::vk_format_get_info(vk::Format::B8G8R8A8_SRGB.as_raw());
    assert_eq!(info.format, pw_capture_client::Format::BGRA);
    assert_eq!(info.transfer, Transfer::SRGB);
    assert_eq!(info.vk_format, vk::Format::B8G8R8A8_SRGB.as_raw());

    let info = pw_capture_client::vk_format_get_info(vk::Format::R16_UNORM.as_raw());
    assert_eq!(info.format, pw_capture_client::Format::GRAY16_LE);
    assert_eq!(info.transfer, Transfer::UNORM);
}

#[test]
fn get_info_fallback_keeps_code() {
    let code = vk::Format::R32G32B32A32_SFLOAT.as_raw();
    let info = pw_capture_client::vk_format_get_info(code);
    assert_eq!(info.format, pw_capture_client::Format::UNKNOWN);
    assert_eq!(info.transfer, Transfer::UNKNOWN);
    assert_eq!(info.vk_format, code);
}

#[test]
fn get_info_by_client_format() {
    let info =
        pw_capture_client::client_format_get_info(pw_capture_client::Format::RGBA, Transfer::UNORM);
    assert_eq!(info.vk_format, vk::Format::R8G8B8A8_UNORM.as_raw());

    let info =
        pw_capture_client::client_format_get_info(pw_capture_client::Format::NV12, Transfer::UNORM);
    assert_eq!(info.vk_format, vk::Format::UNDEFINED.as_raw());
    assert_eq!(info.format, pw_capture_client::Format::NV12);
}
