use win_desktop_duplication::duplication::merge_into;
use win_desktop_duplication::{CursorInfo, CursorKind, CursorPos, FrameInfo, RawFrameInfo};

fn quiet(frames: u32) -> RawFrameInfo {
    RawFrameInfo { accumulated_frames: frames, ..RawFrameInfo::default() }
}

fn busy() -> RawFrameInfo {
    RawFrameInfo {
        last_present_time: 900,
        last_mouse_update_time: 800,
        accumulated_frames: 2,
        protected_content_masked_out: true,
        pointer_position: CursorPos { cx: 100, cy: 200 },
        pointer_visible: true,
        pointer_shape_buffer_size: 64,
    }
}

#[test]
fn defaults_are_empty() {
    assert_eq!(CursorPos::default(), CursorPos { cx: 0, cy: 0 });
    assert_eq!(
        CursorInfo::default(),
        CursorInfo { visible: false, updated: false, position: CursorPos { cx: 0, cy: 0 } }
    );
    let info = FrameInfo::default();
    assert_eq!(info.last_present_time, 0);
    assert_eq!(info.last_mouse_update_time, 0);
    assert_eq!(info.accumulated_frames, 0);
    assert!(!info.protected_content_masked_out);
    assert_eq!(info.pointer_info, CursorInfo::default());
    assert_eq!(RawFrameInfo::default().pointer_shape_buffer_size, 0);
    assert_eq!(FrameInfo::from_raw(&RawFrameInfo::default()), FrameInfo::default());
}

#[test]
fn frame_count_is_always_the_latest() {
    let merged = busy().merge(&quiet(7));
    assert_eq!(merged.accumulated_frames, 7);
    let merged = merged.merge(&quiet(0));
    assert_eq!(merged.accumulated_frames, 0);
}

#[test]
fn mouse_fields_follow_a_nonzero_mouse_time_only() {
    let moved = RawFrameInfo {
        last_mouse_update_time: 0,
        pointer_position: CursorPos { cx: 1, cy: 2 },
        pointer_visible: false,
        ..quiet(1)
    };
    let merged = busy().merge(&moved);
    assert_eq!(merged.last_mouse_update_time, 800);
    assert_eq!(merged.pointer_position, CursorPos { cx: 100, cy: 200 });
    assert!(merged.pointer_visible);

    let moved = RawFrameInfo { last_mouse_update_time: 801, ..moved };
    let merged = busy().merge(&moved);
    assert_eq!(merged.last_mouse_update_time, 801);
    assert_eq!(merged.pointer_position, CursorPos { cx: 1, cy: 2 });
    assert!(!merged.pointer_visible);
    assert_eq!(merged.last_present_time, 900);
    assert!(merged.protected_content_masked_out);
}

#[test]
fn present_fields_follow_a_nonzero_present_time_only() {
    let shown = RawFrameInfo { protected_content_masked_out: false, ..quiet(1) };
    let merged = busy().merge(&shown);
    assert_eq!(merged.last_present_time, 900);
    assert!(merged.protected_content_masked_out);

    let shown = RawFrameInfo { last_present_time: 950, ..shown };
    let merged = busy().merge(&shown);
    assert_eq!(merged.last_present_time, 950);
    assert!(!merged.protected_content_masked_out);
    assert_eq!(merged.last_mouse_update_time, 800);
}

#[test]
fn negative_times_count_as_updates() {
    let odd = RawFrameInfo { last_present_time: -1, last_mouse_update_time: -2, ..quiet(1) };
    let merged = busy().merge(&odd);
    assert_eq!(merged.last_present_time, -1);
    assert_eq!(merged.last_mouse_update_time, -2);
    assert_eq!(merged.pointer_position, CursorPos { cx: 0, cy: 0 });
}

#[test]
fn shape_size_follows_a_nonzero_size_only() {
    assert_eq!(busy().merge(&quiet(1)).pointer_shape_buffer_size, 64);
    let reshaped = RawFrameInfo { pointer_shape_buffer_size: 16, ..quiet(1) };
    assert_eq!(busy().merge(&reshaped).pointer_shape_buffer_size, 16);
}

#[test]
fn only_the_frame_count_changes_over_a_run_of_events() {
    let first = RawFrameInfo { accumulated_frames: 1, ..busy() };
    let mut remembered = merge_into(&None, &first);
    let after_first = remembered;
    for frames in [4u32, 0, 9, 9, 2, 4_000_000_000] {
        let event = RawFrameInfo { accumulated_frames: frames, ..busy() };
        remembered = merge_into(&Some(remembered), &event);
        let info = FrameInfo::from_raw(&remembered);
        let reference = FrameInfo::from_raw(&after_first);
        assert_eq!(info.accumulated_frames, frames);
        assert_eq!(info.pointer_info, reference.pointer_info);
        assert_eq!(info.last_present_time, reference.last_present_time);
        assert_eq!(info.last_mouse_update_time, reference.last_mouse_update_time);
        assert_eq!(info.protected_content_masked_out, reference.protected_content_masked_out);
        assert_eq!(RawFrameInfo { accumulated_frames: 1, ..remembered }, after_first);
    }
}

#[test]
fn quiet_events_change_the_frame_count_only() {
    let mut remembered = busy();
    for frames in 1..50u32 {
        remembered = remembered.merge(&quiet(frames));
        assert_eq!(remembered, RawFrameInfo { accumulated_frames: frames, ..busy() });
    }
}

#[test]
fn nothing_remembered_counts_as_nothing_reported() {
    assert_eq!(merge_into(&None, &busy()), busy());
    assert_eq!(merge_into(&None, &quiet(3)), quiet(3));
    assert_eq!(merge_into(&Some(busy()), &quiet(3)), RawFrameInfo { accumulated_frames: 3, ..busy() });
}

#[test]
fn snapshot_of_merged_events() {
    let info = FrameInfo::from_raw(&busy());
    assert_eq!(
        info,
        FrameInfo {
            last_present_time: 900,
            last_mouse_update_time: 800,
            accumulated_frames: 2,
            protected_content_masked_out: true,
            pointer_info: CursorInfo {
                visible: true,
                updated: true,
                position: CursorPos { cx: 100, cy: 200 },
            },
        }
    );
    let unchanged = RawFrameInfo { pointer_shape_buffer_size: 0, ..busy() };
    assert!(!FrameInfo::from_raw(&unchanged).pointer_info.updated);
}

#[test]
fn cursor_kinds_by_tag() {
    assert_eq!(CursorKind::from(1), CursorKind::SingleBit);
    assert_eq!(CursorKind::from(2), CursorKind::ARGB);
    assert_eq!(CursorKind::from(4), CursorKind::Masked);
    assert_eq!(CursorKind::from(0), CursorKind::ARGB);
    assert_eq!(CursorKind::from(3), CursorKind::ARGB);
    assert_eq!(CursorKind::from(u32::MAX), CursorKind::ARGB);
    assert_eq!(CursorKind::default(), CursorKind::SingleBit);
    let kind: CursorKind = 4u32.into();
    assert_eq!(kind, CursorKind::Masked);
}
