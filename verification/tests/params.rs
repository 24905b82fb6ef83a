use pw_capture_client::Format;
use pw_capture_client::params::CURSOR_META_SIZE;
use pw_capture_client::params::MAX_CURSOR_BITMAP_SIZE;
use pw_capture_client::params::build_format;
use pw_capture_client::params::build_stream_params;
use pw_capture_client::pod::ChoiceEnum;
use pw_capture_client::pod::PodValue;
use pw_capture_client::pod::SPA_FORMAT_VIDEO_format;
use pw_capture_client::pod::SPA_FORMAT_VIDEO_modifier;
use pw_capture_client::pod::SPA_FORMAT_mediaSubtype;
use pw_capture_client::pod::SPA_FORMAT_mediaType;
use pw_capture_client::pod::SPA_MEDIA_SUBTYPE_raw;
use pw_capture_client::pod::SPA_MEDIA_TYPE_video;
use pw_capture_client::pod::SPA_META_Cursor;
use pw_capture_client::pod::SPA_META_Header;
use pw_capture_client::pod::SPA_PARAM_BUFFERS_blocks;
use pw_capture_client::pod::SPA_PARAM_BUFFERS_buffers;
use pw_capture_client::pod::SPA_PARAM_BUFFERS_dataType;
use pw_capture_client::pod::SPA_PARAM_EnumFormat;
use pw_capture_client::pod::SPA_POD_PROP_FLAG_DONT_FIXATE;
use pw_capture_client::pod::SPA_POD_PROP_FLAG_MANDATORY;
use pw_capture_client::pod::SPA_TYPE_OBJECT_Format;
use pw_capture_client::pod::SPA_TYPE_OBJECT_ParamBuffers;
use pw_capture_client::pod::SPA_TYPE_OBJECT_ParamMeta;

#[test]
fn cursor_meta_block_size() {
    assert_eq!(MAX_CURSOR_BITMAP_SIZE, 64 * 64 * 4);
    assert_eq!(CURSOR_META_SIZE, 28 + 20 + 64 * 64 * 4);
}

#[test]
fn build_format_single_candidate() {
    let pod = build_format(640, 480, &vec![Format::BGRA], &vec![], false);
    assert_eq!(pod.object_type, SPA_TYPE_OBJECT_Format);
    assert_eq!(pod.object_id, SPA_PARAM_EnumFormat);
    assert_eq!(pod.properties.len(), 5);
    assert_eq!(pod.properties[0].key, SPA_FORMAT_mediaType);
    assert_eq!(pod.properties[0].value, PodValue::Id(SPA_MEDIA_TYPE_video));
    assert_eq!(pod.properties[1].key, SPA_FORMAT_mediaSubtype);
    assert_eq!(pod.properties[1].value, PodValue::Id(SPA_MEDIA_SUBTYPE_raw));
    assert_eq!(pod.properties[2].key, SPA_FORMAT_VIDEO_format);
    assert_eq!(pod.properties[2].value, PodValue::Id(Format::BGRA.to_raw()));
    assert_eq!(pod.properties[3].value, PodValue::Rectangle { width: 640, height: 480 });
    assert_eq!(pod.properties[4].value, PodValue::Fraction { num: 0, denom: 1 });
}

#[test]
fn build_format_alternatives_and_open_modifiers() {
    let pod = build_format(
        1920,
        1080,
        &vec![Format::BGRA, Format::RGBA],
        &vec![7, 3],
        false,
    );
    assert_eq!(pod.properties.len(), 6);
    assert_eq!(
        pod.properties[2].value,
        PodValue::ChoiceId(ChoiceEnum::Enum {
            default: Format::BGRA.to_raw(),
            alternatives: vec![Format::BGRA.to_raw(), Format::RGBA.to_raw()],
        })
    );
    let modifier = &pod.properties[5];
    assert_eq!(modifier.key, SPA_FORMAT_VIDEO_modifier);
    assert_eq!(modifier.flags, SPA_POD_PROP_FLAG_MANDATORY | SPA_POD_PROP_FLAG_DONT_FIXATE);
    assert_eq!(
        modifier.value,
        PodValue::ChoiceLong(ChoiceEnum::Enum { default: 7, alternatives: vec![7, 3] })
    );
}

#[test]
fn build_format_fixated_modifier() {
    let pod = build_format(640, 480, &vec![Format::BGRA], &vec![7], true);
    assert_eq!(pod.properties.len(), 6);
    let modifier = &pod.properties[5];
    assert_eq!(modifier.flags, SPA_POD_PROP_FLAG_MANDATORY);
    assert_eq!(modifier.value, PodValue::Long(7));
}

#[test]
fn build_stream_params_shape() {
    let params = build_stream_params(16, 1, false);
    assert_eq!(params.len(), 3);

    let buffers = &params[0];
    assert_eq!(buffers.object_type, SPA_TYPE_OBJECT_ParamBuffers);
    assert_eq!(buffers.properties.len(), 3);
    assert_eq!(buffers.properties[0].key, SPA_PARAM_BUFFERS_buffers);
    assert_eq!(
        buffers.properties[0].value,
        PodValue::ChoiceInt(ChoiceEnum::Range { default: 8, min: 1, max: 16 })
    );
    assert_eq!(buffers.properties[1].key, SPA_PARAM_BUFFERS_blocks);
    assert_eq!(buffers.properties[1].value, PodValue::Int(1));
    assert_eq!(buffers.properties[2].key, SPA_PARAM_BUFFERS_dataType);
    // Shared-memory backing: the memory-descriptor flag, 1 << 2.
    assert_eq!(
        buffers.properties[2].value,
        PodValue::ChoiceInt(ChoiceEnum::Flags { default: 4, flags: vec![] })
    );

    let header = &params[1];
    assert_eq!(header.object_type, SPA_TYPE_OBJECT_ParamMeta);
    assert_eq!(header.properties[0].value, PodValue::Id(SPA_META_Header));
    assert_eq!(header.properties[1].value, PodValue::Int(32));

    let cursor = &params[2];
    assert_eq!(cursor.object_type, SPA_TYPE_OBJECT_ParamMeta);
    assert_eq!(cursor.properties[0].value, PodValue::Id(SPA_META_Cursor));
    assert_eq!(cursor.properties[1].value, PodValue::Int(16432));
}

#[test]
fn build_stream_params_dma_and_zero_blocks() {
    let params = build_stream_params(8, 0, true);
    let buffers = &params[0];
    // A zero block count is published as one block.
    assert_eq!(buffers.properties[1].value, PodValue::Int(1));
    // GPU-memory backing: the exported-buffer flag, 1 << 3.
    assert_eq!(
        buffers.properties[2].value,
        PodValue::ChoiceInt(ChoiceEnum::Flags { default: 8, flags: vec![] })
    );
}
