use pw_capture_client::Format;
use pw_capture_client::pod::ChoiceEnum;
use pw_capture_client::pod::FormatParseError;
use pw_capture_client::pod::PodObject;
use pw_capture_client::pod::PodProperty;
use pw_capture_client::pod::PodValue;
use pw_capture_client::pod::SPA_FORMAT_VIDEO_format;
use pw_capture_client::pod::SPA_FORMAT_VIDEO_modifier;
use pw_capture_client::pod::SPA_POD_PROP_FLAG_DONT_FIXATE;
use pw_capture_client::pod::SPA_POD_PROP_FLAG_MANDATORY;
use pw_capture_client::pod::SPA_TYPE_OBJECT_Format;
use pw_capture_client::pod::VideoRawInfo;
use pw_capture_client::pod::choice_collect;
use pw_capture_client::pod::value_collect_id;
use pw_capture_client::pod::value_collect_long;

#[test]
fn choice_collect_variants() {
    let collected = choice_collect(ChoiceEnum::Enum { default: 5u32, alternatives: vec![5, 7] });
    assert_eq!(collected, vec![5, 5, 7]);
    let collected = choice_collect(ChoiceEnum::Flags { default: 1u32, flags: vec![2, 4] });
    assert_eq!(collected, vec![1, 2, 4]);
    let collected = choice_collect(ChoiceEnum::Step { default: 3u32, min: 0, max: 9, step: 3 });
    assert_eq!(collected, vec![3]);
    let collected = choice_collect(ChoiceEnum::Range { default: 8u32, min: 1, max: 16 });
    assert_eq!(collected, vec![8]);
    let collected = choice_collect(ChoiceEnum::Value(11u32));
    assert_eq!(collected, vec![11]);
}

#[test]
fn collect_id_values() {
    assert_eq!(value_collect_id(PodValue::Id(12)), vec![12]);
    assert_eq!(value_collect_id(PodValue::IdArray(vec![3, 4])), vec![3, 4]);
    assert_eq!(
        value_collect_id(PodValue::ChoiceId(ChoiceEnum::Enum {
            default: 12,
            alternatives: vec![12, 13],
        })),
        vec![12, 12, 13]
    );
    assert_eq!(value_collect_id(PodValue::Long(9)), Vec::<u32>::new());
}

#[test]
fn collect_long_values() {
    assert_eq!(value_collect_long(PodValue::Long(-2)), vec![-2]);
    assert_eq!(value_collect_long(PodValue::LongArray(vec![7, 3])), vec![7, 3]);
    assert_eq!(
        value_collect_long(PodValue::ChoiceLong(ChoiceEnum::Enum {
            default: 7,
            alternatives: vec![7, 3],
        })),
        vec![7, 7, 3]
    );
    assert_eq!(value_collect_long(PodValue::Id(9)), Vec::<i64>::new());
}

fn format_prop(value: PodValue) -> PodProperty {
    PodProperty { key: SPA_FORMAT_VIDEO_format, flags: 0, value }
}

#[test]
fn parse_video_raw_info() {
    let obj = PodObject {
        object_type: SPA_TYPE_OBJECT_Format,
        object_id: 4,
        properties: vec![
            format_prop(PodValue::Id(Format::BGRA.to_raw())),
            PodProperty {
                key: SPA_FORMAT_VIDEO_modifier,
                flags: SPA_POD_PROP_FLAG_MANDATORY | SPA_POD_PROP_FLAG_DONT_FIXATE,
                value: PodValue::ChoiceLong(ChoiceEnum::Enum {
                    default: 7,
                    alternatives: vec![7, 3],
                }),
            },
        ],
    };
    let info = VideoRawInfo::try_from_pod(&obj).unwrap();
    assert_eq!(info.format, Format::BGRA);
    assert!(info.dont_fixate_modifier);
    assert_eq!(info.modifiers, vec![7, 7, 3]);
}

#[test]
fn parse_last_format_wins() {
    let obj = PodObject {
        object_type: SPA_TYPE_OBJECT_Format,
        object_id: 4,
        properties: vec![
            format_prop(PodValue::Id(Format::BGRA.to_raw())),
            format_prop(PodValue::Id(Format::RGBA.to_raw())),
        ],
    };
    let info = VideoRawInfo::try_from_pod(&obj).unwrap();
    assert_eq!(info.format, Format::RGBA);
    assert!(!info.dont_fixate_modifier);
    assert!(info.modifiers.is_empty());
}

#[test]
fn parse_rejects_non_format_object() {
    let obj = PodObject { object_type: 1, object_id: 4, properties: vec![] };
    let err = VideoRawInfo::try_from_pod(&obj).unwrap_err();
    assert_eq!(err, FormatParseError::NotFormat);
}

#[test]
fn parse_rejects_empty_format_property() {
    let obj = PodObject {
        object_type: SPA_TYPE_OBJECT_Format,
        object_id: 4,
        properties: vec![format_prop(PodValue::IdArray(vec![]))],
    };
    let err = VideoRawInfo::try_from_pod(&obj).unwrap_err();
    assert_eq!(err, FormatParseError::NoFormat);
}

#[test]
fn parse_without_format_property_defaults() {
    let obj = PodObject {
        object_type: SPA_TYPE_OBJECT_Format,
        object_id: 4,
        properties: vec![],
    };
    let info = VideoRawInfo::try_from_pod(&obj).unwrap();
    assert_eq!(info.format, Format::UNKNOWN);
}
