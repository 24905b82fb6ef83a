use pw_capture_client::CursorSnapshotInfo;
use pw_capture_client::EglPlatform;
use pw_capture_client::Format;
use pw_capture_client::Point;
use pw_capture_client::as_cursor_info;
use pw_capture_client::buffer::MetaBlock;
use pw_capture_client::buffer::MetaData;
use pw_capture_client::buffer::find_meta;
use pw_capture_client::clock::pts_from_timespec;
use pw_capture_client::egl::PLATFORM_WAYLAND_EXT;
use pw_capture_client::egl::PLATFORM_X11_EXT;
use pw_capture_client::egl::PLATFORM_XCB_EXT;
use pw_capture_client::egl::egl_platform_from_name;
use pw_capture_client::egl_platform_from_ext;
use pw_capture_client::init_logger;

#[test]
fn egl_platform_constants() {
    assert_eq!(egl_platform_from_ext(PLATFORM_X11_EXT), EglPlatform::X11);
    assert_eq!(egl_platform_from_ext(PLATFORM_XCB_EXT), EglPlatform::Xcb);
    assert_eq!(egl_platform_from_ext(PLATFORM_WAYLAND_EXT), EglPlatform::Wayland);
    assert_eq!(egl_platform_from_ext(0), EglPlatform::Unknown);
}

#[test]
fn egl_platform_names() {
    assert_eq!(egl_platform_from_name("x11"), EglPlatform::X11);
    assert_eq!(egl_platform_from_name("xcb"), EglPlatform::Xcb);
    // The environment override table routes a Wayland name to XCB.
    assert_eq!(egl_platform_from_name("wayland"), EglPlatform::Xcb);
    assert_eq!(egl_platform_from_name("drm"), EglPlatform::Unknown);
}

#[test]
fn pts_exact_and_saturating() {
    assert_eq!(pts_from_timespec(0, 0), 0);
    assert_eq!(pts_from_timespec(1, 500), 1_000_000_500);
    assert_eq!(pts_from_timespec(7, 999_999_999), 7_999_999_999);
    assert_eq!(pts_from_timespec(i64::MAX, 999_999_999), i64::MAX);
    assert_eq!(pts_from_timespec(i64::MIN, 0), i64::MIN);
}

#[test]
fn logger_raises_global_ceiling() {
    init_logger();
    assert_eq!(log::max_level(), log::LevelFilter::Debug);
}

#[test]
fn find_meta_by_kind_and_size() {
    let metas = vec![
        MetaBlock { meta_type: 3, size: 8, data: MetaData::Opaque },
        MetaBlock { meta_type: 1, size: 32, data: MetaData::Opaque },
    ];
    assert_eq!(find_meta(&metas, 1, 32), Some(1));
    assert_eq!(find_meta(&metas, 5, 28), None);
    // A matching block that is too small ends the search.
    assert_eq!(find_meta(&metas, 1, 64), None);
}

#[test]
fn cursor_snapshot_conversion() {
    let outside = CursorSnapshotInfo {
        entered: false,
        position: (5, 5),
        hotspot: (0, 0),
        bitmap: None,
        format: Format::BGRA,
    };
    assert!(as_cursor_info(outside, true).is_none());

    let inside = CursorSnapshotInfo {
        entered: true,
        position: (5, 6),
        hotspot: (1, 2),
        bitmap: Some((8, 8, 4, vec![7u8; 8 * 8 * 4])),
        format: Format::BGRA,
    };
    let info = as_cursor_info(inside, true).unwrap();
    assert!(info.serial);
    assert_eq!(info.position, Point { x: 5, y: 6 });
    assert_eq!(info.hotspot, Point { x: 1, y: 2 });
    let bitmap = info.bitmap.unwrap();
    assert_eq!(bitmap.width, 8);
    assert_eq!(bitmap.height, 8);
    assert_eq!(bitmap.format, Format::BGRA);
    assert_eq!(bitmap.pixels.len(), 8 * 8 * 4);
}
