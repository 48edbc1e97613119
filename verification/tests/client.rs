use win_desktop_duplication::duplication::buffers::{CONSUMER_KEY, LOCK_WAIT_MS};
use win_desktop_duplication::{
    ClientAction, ClientEvent, ClientPhase, CursorKind, CursorPos, CursorShape, DDApiError,
    DesktopDuplicationApi, FrameData, FrameInfo, InternalDesktopDuplicationApi, RawFrameInfo,
    ShareAction, SharedHandles, SharedSurface,
};

fn data(handle: isize, frames: u32) -> FrameData {
    FrameData {
        handle,
        info: FrameInfo { accumulated_frames: frames, ..FrameInfo::default() },
        shape: None,
    }
}

fn shape() -> CursorShape {
    CursorShape {
        buffer: vec![1, 2, 3, 4],
        width: 1,
        height: 1,
        pitch: 4,
        kind: CursorKind::Masked,
        hotspot: CursorPos { cx: 0, cy: 0 },
    }
}

fn lock() -> ClientAction {
    ClientAction::Lock { key: CONSUMER_KEY, wait_ms: LOCK_WAIT_MS }
}

#[test]
fn new_consumer_holds_nothing() {
    let client = DesktopDuplicationApi::new();
    assert_eq!(client.last_handle, None);
    assert!(!client.holding);
    assert!(client.last_frame_info.is_none());
    assert!(client.last_cursor_shape.is_none());
    assert!(matches!(client.phase, ClientPhase::Idle));
}

#[test]
fn first_frame_is_opened_and_locked() {
    let mut client = DesktopDuplicationApi::new();
    assert!(matches!(client.acquire_next_frame(), ClientAction::Request { release_first: false }));
    let open = client.resume(ClientEvent::Response(Ok(data(0x1234, 3))));
    assert!(matches!(open, ClientAction::Open { handle: 0x1234 }));
    assert_eq!(client.last_handle, None);
    let locking = client.resume(ClientEvent::Opened);
    assert!(matches!(locking, ClientAction::Lock { key: 1, wait_ms: 1000 }));
    assert_eq!(matches!(locking, ClientAction::Lock { .. }), matches!(lock(), ClientAction::Lock { .. }));
    assert_eq!(client.last_handle, Some(0x1234));
    assert!(!client.holding);
    let done = client.resume(ClientEvent::Locked);
    assert!(matches!(done, ClientAction::Done(Ok(()))));
    assert!(client.holding);
    assert!(matches!(client.phase, ClientPhase::Idle));
    assert_eq!(client.get_last_frame_info().accumulated_frames, 3);
}

#[test]
fn same_handle_is_not_opened_again() {
    let mut client = DesktopDuplicationApi::new();
    client.acquire_next_frame();
    client.resume(ClientEvent::Response(Ok(data(7, 1))));
    client.resume(ClientEvent::Opened);
    client.resume(ClientEvent::Locked);

    assert!(matches!(client.acquire_next_frame(), ClientAction::Request { release_first: true }));
    assert!(!client.holding);
    let next = client.resume(ClientEvent::Response(Ok(data(7, 2))));
    assert!(matches!(next, ClientAction::Lock { key: 1, wait_ms: 1000 }));
    assert!(matches!(client.resume(ClientEvent::Locked), ClientAction::Done(Ok(()))));
    assert_eq!(client.last_frame_info.unwrap().accumulated_frames, 2);

    client.acquire_next_frame();
    let next = client.resume(ClientEvent::Response(Ok(data(8, 3))));
    assert!(matches!(next, ClientAction::Open { handle: 8 }));
    client.resume(ClientEvent::Opened);
    assert_eq!(client.last_handle, Some(8));
}

#[test]
fn second_request_waits_until_the_first_is_over() {
    let mut client = DesktopDuplicationApi::new();
    assert!(matches!(client.acquire_next_frame(), ClientAction::Request { .. }));
    assert!(matches!(client.acquire_next_frame(), ClientAction::Wait));
    assert!(matches!(client.phase, ClientPhase::Awaiting));
    let open = client.resume(ClientEvent::Response(Ok(data(5, 1))));
    assert!(matches!(open, ClientAction::Open { handle: 5 }));
    assert!(matches!(client.acquire_next_frame(), ClientAction::Wait));
    assert!(matches!(client.phase, ClientPhase::Opening(_)));
    assert!(matches!(client.resume(ClientEvent::Opened), ClientAction::Lock { .. }));
    assert!(matches!(client.acquire_next_frame(), ClientAction::Wait));
    assert!(matches!(client.phase, ClientPhase::Locking));
    assert!(matches!(client.resume(ClientEvent::Locked), ClientAction::Done(Ok(()))));
    assert_eq!(client.last_frame_info.unwrap().accumulated_frames, 1);
    assert!(matches!(client.acquire_next_frame(), ClientAction::Request { release_first: true }));
}

#[test]
fn errors_of_the_worker_are_passed_on() {
    let mut client = DesktopDuplicationApi::new();
    client.acquire_next_frame();
    let done = client.resume(ClientEvent::Response(Err(DDApiError::AccessLost)));
    assert!(matches!(done, ClientAction::Done(Err(DDApiError::AccessLost))));
    assert!(!client.holding);
    assert!(matches!(client.acquire_next_frame(), ClientAction::Request { release_first: false }));
    let done = client.resume(ClientEvent::Response(Err(DDApiError::Unexpected("gone".to_string()))));
    assert!(matches!(done, ClientAction::Done(Err(DDApiError::Unexpected(d))) if d == "gone"));
}

#[test]
fn lost_worker_ends_the_request() {
    let mut client = DesktopDuplicationApi::new();
    client.acquire_next_frame();
    let done = client.resume(ClientEvent::Disconnected { detail: "caputre loop ended".to_string() });
    assert!(matches!(done, ClientAction::Done(Err(DDApiError::Unexpected(d))) if d == "caputre loop ended"));
    assert!(matches!(client.phase, ClientPhase::Idle));
}

#[test]
fn handle_that_cannot_be_opened_is_forgotten() {
    let mut client = DesktopDuplicationApi::new();
    client.acquire_next_frame();
    client.resume(ClientEvent::Response(Ok(data(7, 1))));
    client.resume(ClientEvent::Opened);
    client.resume(ClientEvent::Locked);
    client.acquire_next_frame();
    client.resume(ClientEvent::Response(Ok(data(9, 2))));
    let done = client.resume(ClientEvent::OpenFailed { detail: "no such handle".to_string() });
    assert!(matches!(done, ClientAction::Done(Err(DDApiError::Unexpected(d))) if d == "no such handle"));
    assert_eq!(client.last_handle, None);
    assert!(!client.holding);
    assert_eq!(client.last_frame_info.unwrap().accumulated_frames, 1);
    assert!(matches!(client.acquire_next_frame(), ClientAction::Request { release_first: false }));
    assert!(matches!(client.resume(ClientEvent::Response(Ok(data(7, 3)))), ClientAction::Open { handle: 7 }));
}

#[test]
fn key_that_is_not_handed_over_fails_the_frame() {
    let mut client = DesktopDuplicationApi::new();
    client.acquire_next_frame();
    client.resume(ClientEvent::Response(Ok(data(7, 1))));
    client.resume(ClientEvent::Opened);
    let done = client.resume(ClientEvent::LockTimedOut { detail: "stuck producer".to_string() });
    assert!(matches!(done, ClientAction::Done(Err(DDApiError::Unexpected(d))) if d == "stuck producer"));
    assert!(!client.holding);
    assert!(matches!(client.acquire_next_frame(), ClientAction::Request { release_first: false }));
}

#[test]
fn replies_out_of_turn_are_rejected() {
    let mut client = DesktopDuplicationApi::new();
    assert!(matches!(client.resume(ClientEvent::Locked), ClientAction::Rejected));
    assert!(matches!(client.resume(ClientEvent::Response(Ok(data(1, 1)))), ClientAction::Rejected));
    assert!(client.last_frame_info.is_none());
    client.acquire_next_frame();
    assert!(matches!(client.resume(ClientEvent::Opened), ClientAction::Rejected));
    assert!(matches!(client.phase, ClientPhase::Awaiting));
}

#[test]
fn frame_info_and_shape_of_the_consumer() {
    let mut client = DesktopDuplicationApi::new();
    let mut out = CursorShape::default();
    assert!(matches!(
        client.get_cursor_shape(&mut out),
        Err(DDApiError::BadParam(d)) if d == "requested before frame!!!"
    ));
    assert_eq!(client.get_last_frame_info(), FrameInfo::default());

    client.acquire_next_frame();
    client.resume(ClientEvent::Response(Ok(FrameData { shape: Some(shape()), ..data(7, 4) })));
    client.resume(ClientEvent::Opened);
    client.resume(ClientEvent::Locked);
    assert!(client.get_cursor_shape(&mut out).is_ok());
    assert_eq!(out.buffer, vec![1, 2, 3, 4]);
    assert_eq!(out.kind, CursorKind::Masked);
    assert_eq!(client.get_last_frame_info().accumulated_frames, 4);
    assert_eq!(client.get_last_frame_info(), FrameInfo::default());
    assert!(client.get_cursor_shape(&mut out).is_ok());

    client.acquire_next_frame();
    client.resume(ClientEvent::Response(Ok(data(7, 5))));
    client.resume(ClientEvent::Locked);
    assert!(client.get_cursor_shape(&mut out).is_err());
    assert_eq!(out.buffer, vec![1, 2, 3, 4]);
}

#[test]
fn handle_is_created_once_per_surface() {
    let mut handles = SharedHandles::new();
    assert_eq!(handles.current, None);
    assert_eq!(handles.publish(0xA000), ShareAction::Replace { close: None });
    handles.installed(0xA000, 11);
    assert_eq!(handles.current, Some(SharedSurface { surface: 0xA000, handle: 11 }));
    for _ in 0..10 {
        assert_eq!(handles.publish(0xA000), ShareAction::Reuse(11));
        assert_eq!(handles.current, Some(SharedSurface { surface: 0xA000, handle: 11 }));
    }
    assert_eq!(handles.publish(0xB000), ShareAction::Replace { close: Some(11) });
    assert_eq!(handles.current, None);
    handles.installed(0xB000, 12);
    assert_eq!(handles.publish(0xB000), ShareAction::Reuse(12));
    assert_eq!(handles.publish(0xA000), ShareAction::Replace { close: Some(12) });
    assert_eq!(handles.publish(0xA000), ShareAction::Replace { close: None });
    assert_eq!(SharedHandles::default().current, None);
}

#[test]
fn frame_data_takes_the_metadata_and_copies_the_shape() {
    let mut engine = InternalDesktopDuplicationApi::new();
    engine.last_frame_info = Some(RawFrameInfo {
        accumulated_frames: 6,
        pointer_shape_buffer_size: 4,
        ..RawFrameInfo::default()
    });
    engine.last_cursor_shape = Some(shape());
    let sent = engine.frame_data(0x77);
    assert_eq!(sent.handle, 0x77);
    assert_eq!(sent.info.accumulated_frames, 6);
    assert!(sent.info.pointer_info.updated);
    assert_eq!(sent.shape.as_ref().unwrap().buffer, vec![1, 2, 3, 4]);
    assert_eq!(sent.shape.as_ref().unwrap().kind, CursorKind::Masked);
    assert!(engine.last_frame_info.is_none());
    assert!(engine.last_cursor_shape.is_some());

    let again = engine.frame_data(0x78);
    assert_eq!(again.info, FrameInfo::default());
    assert!(again.shape.is_some());
}
