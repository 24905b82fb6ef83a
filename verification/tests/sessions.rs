use pw_capture_client::AddBufferMetaCbs;
use pw_capture_client::BufferHandle;
use pw_capture_client::BufferInfo;
use pw_capture_client::BufferPlaneInfo;
use pw_capture_client::BufferUserHandle;
use pw_capture_client::EnumFormatInfo;
use pw_capture_client::FixateFormat;
use pw_capture_client::Format;
use pw_capture_client::SessionCore;
use pw_capture_client::SessionError;
use pw_capture_client::StreamBackend;
use pw_capture_client::StreamInfo;
use pw_capture_client::stream::ProcessOutcome;
use pw_capture_client::stream::TransportState;

struct NullBackend;

impl StreamBackend for NullBackend {
    fn fixate_format(&mut self, _info: EnumFormatInfo) -> Option<FixateFormat> {
        Some(FixateFormat { modifier: None, num_planes: 1 })
    }

    fn add_buffer(&mut self) -> Option<BufferInfo> {
        Some(BufferInfo {
            is_dma_buf: false,
            planes: vec![BufferPlaneInfo { fd: 3, offset: 0, size: 64, stride: 8 }],
            user_handle: BufferUserHandle::Texture(9),
        })
    }

    fn remove_buffer(&mut self, _user_handle: BufferUserHandle) {
    }

    fn process_buffer(
        &mut self,
        _user_handle: BufferUserHandle,
        _cursor_available: bool,
    ) -> AddBufferMetaCbs {
        AddBufferMetaCbs { add_cursor: None }
    }
}

fn stream_info() -> StreamInfo {
    StreamInfo {
        width: 320,
        height: 240,
        enum_formats: vec![EnumFormatInfo { formats: vec![Format::BGRA], modifiers: vec![] }],
        max_buffers: 8,
    }
}

#[test]
fn create_stream_allocates_increasing_ids() {
    let mut session = SessionCore::new();
    let (id0, offers0) = session.create_stream(stream_info()).unwrap();
    let (id1, _offers1) = session.create_stream(stream_info()).unwrap();
    assert_eq!(id0, 0);
    assert_eq!(id1, 1);
    assert_eq!(offers0.len(), 1);
}

#[test]
fn create_stream_after_terminate_fails() {
    let mut session = SessionCore::new();
    let (id, _offers) = session.create_stream(stream_info()).unwrap();
    session.terminate();
    let err = session.create_stream(stream_info()).unwrap_err();
    assert_eq!(err, SessionError::Terminated);
    // The torn-down session serves no stream either.
    let err = session.stream_dequeue_buffer(id).unwrap_err();
    assert_eq!(err, SessionError::StreamGone);
}

#[test]
fn stream_terminate_reclaims_the_id() {
    let mut session = SessionCore::new();
    let (id0, _offers) = session.create_stream(stream_info()).unwrap();
    let (id1, _offers) = session.create_stream(stream_info()).unwrap();
    let fired = session.stream_terminate(id0).unwrap();
    assert!(fired);
    // The slot is reclaimed; later messages for the id fail cleanly.
    let err = session.stream_terminate(id0).unwrap_err();
    assert_eq!(err, SessionError::StreamGone);
    // The other stream is untouched.
    assert!(session.stream_set_driving(id1, true).is_ok());
    // Ids are never reused.
    let (id2, _offers) = session.create_stream(stream_info()).unwrap();
    assert_eq!(id2, 2);
}

#[test]
fn message_for_unknown_stream_fails_cleanly() {
    let mut session = SessionCore::new();
    let mut backend = NullBackend;
    assert_eq!(session.stream_dequeue_buffer(7).unwrap_err(), SessionError::StreamGone);
    assert_eq!(
        session.stream_queue_buffer_process(7, BufferHandle::from_raw(1)).unwrap_err(),
        SessionError::StreamGone
    );
    assert_eq!(
        session.stream_on_process(7, &mut backend, 0).unwrap_err(),
        SessionError::StreamGone
    );
}

#[test]
fn session_buffer_cycle_through_dispatch() {
    let mut session = SessionCore::new();
    let mut backend = NullBackend;
    let (id, _offers) = session.create_stream(stream_info()).unwrap();
    let valid = session
        .stream_on_add_buffer(id, &mut backend, BufferHandle::from_raw(500), 1, vec![])
        .unwrap();
    assert!(valid);
    session.stream_on_state_changed(id, TransportState::Streaming).unwrap();
    session.stream_set_driving(id, true).unwrap();

    let (handle, user) = session.stream_dequeue_buffer(id).unwrap().unwrap();
    assert_eq!(handle.as_raw(), 500);
    assert_eq!(user, BufferUserHandle::Texture(9));
    session.stream_queue_buffer_process(id, handle).unwrap();
    let outcome = session.stream_on_process(id, &mut backend, 42).unwrap();
    assert_eq!(outcome, ProcessOutcome::Processed(handle));

    let freed = session.stream_on_remove_buffer(id, &mut backend, handle).unwrap();
    assert!(freed);
}

#[test]
fn session_backpressure_through_dispatch() {
    let mut session = SessionCore::new();
    let mut backend = NullBackend;
    let (id, _offers) = session.create_stream(stream_info()).unwrap();
    for raw in 0..5usize {
        session
            .stream_on_add_buffer(id, &mut backend, BufferHandle::from_raw(600 + raw), 1, vec![])
            .unwrap();
    }
    session.stream_on_state_changed(id, TransportState::Streaming).unwrap();
    session.stream_set_driving(id, true).unwrap();
    let mut handles = Vec::new();
    for _ in 0..5 {
        let (handle, _user) = session.stream_dequeue_buffer(id).unwrap().unwrap();
        handles.push(handle);
    }
    for handle in handles.iter().take(4) {
        session.stream_queue_buffer_process(id, *handle).unwrap();
    }
    let err = session.stream_queue_buffer_process(id, handles[4]).unwrap_err();
    assert_eq!(err, SessionError::Backpressure);
}
