use pw_capture_client::AddBufferMetaCbs;
use pw_capture_client::BufferBitmap;
use pw_capture_client::BufferCursorInfo;
use pw_capture_client::BufferHandle;
use pw_capture_client::BufferInfo;
use pw_capture_client::BufferPlaneInfo;
use pw_capture_client::BufferUserHandle;
use pw_capture_client::EnumFormatInfo;
use pw_capture_client::FixateFormat;
use pw_capture_client::Format;
use pw_capture_client::Point;
use pw_capture_client::StreamBackend;
use pw_capture_client::StreamInfo;
use pw_capture_client::buffer::CursorMeta;
use pw_capture_client::buffer::HeaderMeta;
use pw_capture_client::buffer::MetaBlock;
use pw_capture_client::buffer::MetaData;
use pw_capture_client::pod::ChoiceEnum;
use pw_capture_client::pod::PodObject;
use pw_capture_client::pod::PodProperty;
use pw_capture_client::pod::PodValue;
use pw_capture_client::pod::SPA_FORMAT_VIDEO_format;
use pw_capture_client::pod::SPA_FORMAT_VIDEO_modifier;
use pw_capture_client::pod::SPA_META_Cursor;
use pw_capture_client::pod::SPA_META_Header;
use pw_capture_client::pod::SPA_PARAM_Format;
use pw_capture_client::pod::SPA_POD_PROP_FLAG_DONT_FIXATE;
use pw_capture_client::pod::SPA_POD_PROP_FLAG_MANDATORY;
use pw_capture_client::pod::SPA_TYPE_OBJECT_Format;
use pw_capture_client::stream::ParamChangeAction;
use pw_capture_client::stream::ProcessOutcome;
use pw_capture_client::stream::StreamCore;
use pw_capture_client::stream::StreamError;
use pw_capture_client::stream::StreamPhase;
use pw_capture_client::stream::TransportState;

struct FakeBackend {
    fixate_calls: Vec<EnumFormatInfo>,
    fixate_answer: Option<FixateFormat>,
    add_answer: Option<BufferInfo>,
    removed: Vec<BufferUserHandle>,
    processed: Vec<BufferUserHandle>,
    cursor: Option<BufferCursorInfo>,
}

impl FakeBackend {
    fn new() -> FakeBackend {
        FakeBackend {
            fixate_calls: Vec::new(),
            fixate_answer: None,
            add_answer: None,
            removed: Vec::new(),
            processed: Vec::new(),
            cursor: None,
        }
    }
}

impl StreamBackend for FakeBackend {
    fn fixate_format(&mut self, info: EnumFormatInfo) -> Option<FixateFormat> {
        self.fixate_calls.push(info);
        self.fixate_answer
    }

    fn add_buffer(&mut self) -> Option<BufferInfo> {
        self.add_answer.clone()
    }

    fn remove_buffer(&mut self, user_handle: BufferUserHandle) {
        self.removed.push(user_handle);
    }

    fn process_buffer(
        &mut self,
        user_handle: BufferUserHandle,
        cursor_available: bool,
    ) -> AddBufferMetaCbs {
        self.processed.push(user_handle);
        AddBufferMetaCbs {
            add_cursor: if cursor_available { self.cursor.clone() } else { None },
        }
    }
}

fn stream_info(formats: Vec<Format>, modifiers: Vec<u64>) -> StreamInfo {
    StreamInfo {
        width: 640,
        height: 480,
        enum_formats: vec![EnumFormatInfo { formats, modifiers }],
        max_buffers: 16,
    }
}

fn format_proposal(format: Format) -> PodObject {
    PodObject {
        object_type: SPA_TYPE_OBJECT_Format,
        object_id: SPA_PARAM_Format,
        properties: vec![PodProperty {
            key: SPA_FORMAT_VIDEO_format,
            flags: 0,
            value: PodValue::Id(format.to_raw()),
        }],
    }
}

fn plane() -> BufferPlaneInfo {
    BufferPlaneInfo { fd: 5, offset: 0, size: 1024, stride: 256 }
}

fn header_block() -> MetaBlock {
    MetaBlock {
        meta_type: SPA_META_Header,
        size: 32,
        data: MetaData::Header(HeaderMeta { flags: 0, offset: 0, pts: 0, dts_offset: 0, seq: 0 }),
    }
}

fn cursor_block() -> MetaBlock {
    MetaBlock {
        meta_type: SPA_META_Cursor,
        size: 16432,
        data: MetaData::Cursor(CursorMeta {
            id: 0,
            flags: 0,
            position: Point { x: 0, y: 0 },
            hotspot: Point { x: 0, y: 0 },
            bitmap_offset: 0,
            bitmap: None,
        }),
    }
}

/// Brings a stream into the streaming, driving state with `n` valid
/// buffers added.
fn streaming_core(backend: &mut FakeBackend, n: usize) -> StreamCore {
    let (mut core, offers) = StreamCore::new(stream_info(vec![Format::BGRA], vec![]));
    assert_eq!(offers.len(), 1);
    backend.add_answer = Some(BufferInfo {
        is_dma_buf: false,
        planes: vec![plane()],
        user_handle: BufferUserHandle::Texture(7),
    });
    let mut i = 0;
    while i < n {
        let valid = core.on_add_buffer(
            backend,
            BufferHandle::from_raw(100 + i),
            1,
            vec![header_block(), cursor_block()],
        );
        assert!(valid);
        i += 1;
    }
    core.on_state_changed(TransportState::Streaming);
    core.set_driving(true);
    core
}

#[test]
fn negotiation_without_modifiers_reaches_streaming() {
    let mut backend = FakeBackend::new();
    backend.fixate_answer = Some(FixateFormat { modifier: None, num_planes: 1 });
    let (mut core, offers) =
        StreamCore::new(stream_info(vec![Format::BGRA, Format::RGBA], vec![]));
    assert!(matches!(core.phase, StreamPhase::Created));
    assert_eq!(offers.len(), 1);

    let proposal = format_proposal(Format::BGRA);
    let action = core.on_param_changed(&mut backend, SPA_PARAM_Format, Some(&proposal));

    assert_eq!(backend.fixate_calls.len(), 1);
    assert_eq!(backend.fixate_calls[0].formats, vec![Format::BGRA]);
    assert!(backend.fixate_calls[0].modifiers.is_empty());

    match action {
        ParamChangeAction::Publish(params) => {
            assert_eq!(params.len(), 3);
            // blocks = 1, from the backend's plane count.
            assert_eq!(params[0].properties[1].value, PodValue::Int(1));
        },
        ParamChangeAction::NoChange => panic!("expected published buffer parameters"),
    }
    assert!(matches!(core.phase, StreamPhase::Streaming));
}

#[test]
fn negotiation_deferred_fixation_republishes() {
    let mut backend = FakeBackend::new();
    backend.fixate_answer = Some(FixateFormat { modifier: Some(7), num_planes: 2 });
    let (mut core, _offers) = StreamCore::new(stream_info(vec![Format::BGRA], vec![7, 3]));

    let proposal = PodObject {
        object_type: SPA_TYPE_OBJECT_Format,
        object_id: SPA_PARAM_Format,
        properties: vec![
            PodProperty {
                key: SPA_FORMAT_VIDEO_format,
                flags: 0,
                value: PodValue::Id(Format::BGRA.to_raw()),
            },
            PodProperty {
                key: SPA_FORMAT_VIDEO_modifier,
                flags: SPA_POD_PROP_FLAG_MANDATORY | SPA_POD_PROP_FLAG_DONT_FIXATE,
                value: PodValue::ChoiceLong(ChoiceEnum::Enum {
                    default: 7,
                    alternatives: vec![7, 3],
                }),
            },
        ],
    };
    let action = core.on_param_changed(&mut backend, SPA_PARAM_Format, Some(&proposal));

    match action {
        ParamChangeAction::Publish(params) => {
            // The pinned offer first, the original alternatives as fallback.
            assert_eq!(params.len(), 2);
            let pinned = &params[0];
            assert_eq!(pinned.properties[5].key, SPA_FORMAT_VIDEO_modifier);
            assert_eq!(pinned.properties[5].flags, SPA_POD_PROP_FLAG_MANDATORY);
            assert_eq!(pinned.properties[5].value, PodValue::Long(7));
            let fallback = &params[1];
            assert_eq!(
                fallback.properties[5].flags,
                SPA_POD_PROP_FLAG_MANDATORY | SPA_POD_PROP_FLAG_DONT_FIXATE
            );
        },
        ParamChangeAction::NoChange => panic!("expected republished offers"),
    }
    assert!(matches!(core.phase, StreamPhase::Negotiating));
}

#[test]
fn negotiation_incompatible_changes_nothing() {
    let mut backend = FakeBackend::new();
    backend.fixate_answer = None;
    let (mut core, _offers) = StreamCore::new(stream_info(vec![Format::BGRA], vec![]));
    let proposal = format_proposal(Format::BGRA);
    let action = core.on_param_changed(&mut backend, SPA_PARAM_Format, Some(&proposal));
    assert!(matches!(action, ParamChangeAction::NoChange));
}

#[test]
fn non_format_parameter_is_ignored() {
    let mut backend = FakeBackend::new();
    backend.fixate_answer = Some(FixateFormat { modifier: None, num_planes: 1 });
    let (mut core, _offers) = StreamCore::new(stream_info(vec![Format::BGRA], vec![]));
    let proposal = format_proposal(Format::BGRA);
    let action = core.on_param_changed(&mut backend, 2, Some(&proposal));
    assert!(matches!(action, ParamChangeAction::NoChange));
    assert!(backend.fixate_calls.is_empty());
    let action = core.on_param_changed(&mut backend, SPA_PARAM_Format, None);
    assert!(matches!(action, ParamChangeAction::NoChange));
}

#[test]
fn dequeue_requires_streaming_and_driving() {
    let mut backend = FakeBackend::new();
    let mut core = streaming_core(&mut backend, 1);
    core.set_driving(false);
    assert!(core.dequeue_buffer().is_none());
    core.set_driving(true);
    core.on_state_changed(TransportState::Paused);
    assert!(core.dequeue_buffer().is_none());
    core.on_state_changed(TransportState::Streaming);
    assert!(core.dequeue_buffer().is_some());
}

#[test]
fn dequeue_returns_added_user_handle() {
    let mut backend = FakeBackend::new();
    let mut core = streaming_core(&mut backend, 1);
    let (handle, user) = core.dequeue_buffer().expect("a buffer must be available");
    assert_eq!(handle.as_raw(), 100);
    assert_eq!(user, BufferUserHandle::Texture(7));
    // The claimed buffer is not handed out again.
    assert!(core.dequeue_buffer().is_none());
}

#[test]
fn dequeue_skips_nothing_after_failed_add() {
    let mut backend = FakeBackend::new();
    let (mut core, _offers) = StreamCore::new(stream_info(vec![Format::BGRA], vec![]));
    backend.add_answer = None;
    let valid = core.on_add_buffer(&mut backend, BufferHandle::from_raw(100), 1, vec![]);
    assert!(!valid);
    core.on_state_changed(TransportState::Streaming);
    core.set_driving(true);
    // The only buffer carries no user handle: never handed out.
    assert!(core.dequeue_buffer().is_none());
}

#[test]
fn add_with_mismatched_plane_count_is_invalid() {
    let mut backend = FakeBackend::new();
    let (mut core, _offers) = StreamCore::new(stream_info(vec![Format::BGRA], vec![]));
    backend.add_answer = Some(BufferInfo {
        is_dma_buf: false,
        planes: vec![plane(), plane()],
        user_handle: BufferUserHandle::Texture(7),
    });
    let valid = core.on_add_buffer(&mut backend, BufferHandle::from_raw(100), 1, vec![]);
    assert!(!valid);
}

#[test]
fn process_cycle_no_double_processing() {
    let mut backend = FakeBackend::new();
    let mut core = streaming_core(&mut backend, 1);
    let (handle, _user) = core.dequeue_buffer().unwrap();
    assert!(core.queue_buffer_process(handle).is_ok());
    let outcome = core.on_process(&mut backend, 11);
    assert_eq!(outcome, ProcessOutcome::Processed(handle));
    assert_eq!(backend.processed, vec![BufferUserHandle::Texture(7)]);
    // The queue is drained: a second process call finds nothing.
    let outcome = core.on_process(&mut backend, 12);
    assert_eq!(outcome, ProcessOutcome::Unscheduled);
    assert_eq!(backend.processed.len(), 1);
}

#[test]
fn backpressure_rejects_fifth_buffer() {
    let mut backend = FakeBackend::new();
    let mut core = streaming_core(&mut backend, 5);
    let mut handles = Vec::new();
    for _ in 0..5 {
        let (handle, _user) = core.dequeue_buffer().unwrap();
        handles.push(handle);
    }
    for handle in handles.iter().take(4) {
        assert!(core.queue_buffer_process(*handle).is_ok());
    }
    let err = core.queue_buffer_process(handles[4]).unwrap_err();
    assert_eq!(err, StreamError::Backpressure);
    // The rejected buffer was not queued: processing drains exactly four.
    let mut processed = 0;
    loop {
        match core.on_process(&mut backend, 0) {
            ProcessOutcome::Processed(_) => processed += 1,
            ProcessOutcome::Unscheduled => break,
            ProcessOutcome::Broken => panic!("queued buffer disappeared"),
        }
    }
    assert_eq!(processed, 4);
}

#[test]
fn queue_without_driving_is_a_no_op() {
    let mut backend = FakeBackend::new();
    let mut core = streaming_core(&mut backend, 1);
    let (handle, _user) = core.dequeue_buffer().unwrap();
    core.set_driving(false);
    assert!(core.queue_buffer_process(handle).is_ok());
    core.set_driving(true);
    // Nothing was queued.
    assert_eq!(core.on_process(&mut backend, 0), ProcessOutcome::Unscheduled);
}

#[test]
fn pause_discards_queued_buffers() {
    let mut backend = FakeBackend::new();
    let mut core = streaming_core(&mut backend, 3);
    for _ in 0..2 {
        let (handle, _user) = core.dequeue_buffer().unwrap();
        core.queue_buffer_process(handle).unwrap();
    }
    core.on_state_changed(TransportState::Paused);
    // Zero pending entries before any new one is queued.
    core.on_state_changed(TransportState::Streaming);
    assert_eq!(core.on_process(&mut backend, 0), ProcessOutcome::Unscheduled);
    assert!(backend.processed.is_empty());
    // The discarded buffers are back in the free pool.
    assert!(core.dequeue_buffer().is_some());
    assert!(core.dequeue_buffer().is_some());
    assert!(core.dequeue_buffer().is_some());
}

#[test]
fn terminate_fires_once() {
    let mut backend = FakeBackend::new();
    let mut core = streaming_core(&mut backend, 0);
    assert!(core.terminate());
    assert!(matches!(core.phase, StreamPhase::Terminated));
    assert!(!core.terminate());
    assert!(!core.terminate());
}

#[test]
fn remove_buffer_frees_user_handle_once() {
    let mut backend = FakeBackend::new();
    let mut core = streaming_core(&mut backend, 1);
    let freed = core.on_remove_buffer(&mut backend, BufferHandle::from_raw(100));
    assert!(freed);
    assert_eq!(backend.removed, vec![BufferUserHandle::Texture(7)]);
    // The buffer is gone: neither dequeued nor removed again.
    assert!(core.dequeue_buffer().is_none());
    let freed = core.on_remove_buffer(&mut backend, BufferHandle::from_raw(100));
    assert!(!freed);
    assert_eq!(backend.removed.len(), 1);
}

#[test]
fn process_stamps_header_and_sequence() {
    let mut backend = FakeBackend::new();
    let mut core = streaming_core(&mut backend, 2);
    for expected_seq in 0..2u64 {
        let (handle, _user) = core.dequeue_buffer().unwrap();
        core.queue_buffer_process(handle).unwrap();
        let outcome = core.on_process(&mut backend, 1000 + expected_seq as i64);
        assert_eq!(outcome, ProcessOutcome::Processed(handle));
        let slot = core
            .buffers
            .iter()
            .find(|s| s.handle.as_raw() == handle.as_raw())
            .unwrap();
        match &slot.metas[0].data {
            MetaData::Header(header) => {
                assert_eq!(header.pts, 1000 + expected_seq as i64);
                assert_eq!(header.seq, expected_seq);
                assert_eq!(header.flags, 0);
            },
            _ => panic!("header block expected"),
        }
    }
}

#[test]
fn process_writes_cursor_snapshot() {
    let mut backend = FakeBackend::new();
    backend.cursor = Some(BufferCursorInfo {
        serial: true,
        position: Point { x: 10, y: 20 },
        hotspot: Point { x: 1, y: 2 },
        bitmap: Some(BufferBitmap {
            width: 16,
            height: 16,
            format: Format::BGRA,
            pixels: vec![0u8; 16 * 16 * 4],
        }),
    });
    let mut core = streaming_core(&mut backend, 1);
    let (handle, _user) = core.dequeue_buffer().unwrap();
    core.queue_buffer_process(handle).unwrap();
    core.on_process(&mut backend, 0);
    match &core.buffers[0].metas[1].data {
        MetaData::Cursor(cursor) => {
            // The snapshot claimed a new identity: the id advanced from 1.
            assert_eq!(cursor.id, 2);
            assert_eq!(cursor.position, Point { x: 10, y: 20 });
            assert_eq!(cursor.hotspot, Point { x: 1, y: 2 });
            assert_eq!(cursor.bitmap_offset, 28);
            let bitmap = cursor.bitmap.as_ref().unwrap();
            assert_eq!(bitmap.width, 16);
            assert_eq!(bitmap.stride, 16);
            assert_eq!(bitmap.offset, 20);
            assert_eq!(bitmap.pixels.len(), 16 * 16 * 4);
        },
        _ => panic!("cursor block expected"),
    }
}

#[test]
fn process_discards_oversize_cursor_bitmap() {
    let mut backend = FakeBackend::new();
    backend.cursor = Some(BufferCursorInfo {
        serial: false,
        position: Point { x: 0, y: 0 },
        hotspot: Point { x: 0, y: 0 },
        bitmap: Some(BufferBitmap {
            width: 128,
            height: 128,
            format: Format::BGRA,
            pixels: vec![0u8; 128 * 128 * 4],
        }),
    });
    let mut core = streaming_core(&mut backend, 1);
    let (handle, _user) = core.dequeue_buffer().unwrap();
    core.queue_buffer_process(handle).unwrap();
    core.on_process(&mut backend, 0);
    match &core.buffers[0].metas[1].data {
        MetaData::Cursor(cursor) => {
            assert_eq!(cursor.bitmap_offset, 0);
            assert!(cursor.bitmap.is_none());
        },
        _ => panic!("cursor block expected"),
    }
}

#[test]
fn process_without_cursor_marks_block_empty() {
    let mut backend = FakeBackend::new();
    let mut core = streaming_core(&mut backend, 1);
    let (handle, _user) = core.dequeue_buffer().unwrap();
    core.queue_buffer_process(handle).unwrap();
    core.on_process(&mut backend, 0);
    match &core.buffers[0].metas[1].data {
        MetaData::Cursor(cursor) => {
            assert_eq!(cursor.id, 0);
        },
        _ => panic!("cursor block expected"),
    }
}

#[test]
fn stamped_data_blocks_carry_plane_layout() {
    let mut backend = FakeBackend::new();
    let core = streaming_core(&mut backend, 1);
    let data = &core.buffers[0].datas[0];
    // Shared-memory kind, 2 in the transport's data-type table.
    assert_eq!(data.data_type, 2);
    assert_eq!(data.fd, 5);
    assert_eq!(data.maxsize, 1024);
    assert_eq!(data.chunk_size, 1024);
    assert_eq!(data.chunk_stride, 256);
}
