use win_desktop_duplication::devices::EnumCursor;
use win_desktop_duplication::duplication::priority::{
    GPU_PRIORITY_HIGH, GPU_PRIORITY_REALTIME, HIGH_PRIORITY_CLASS, REALTIME_PRIORITY_CLASS,
    THREAD_PRIORITY_HIGHEST, THREAD_PRIORITY_TIME_CRITICAL,
};
use win_desktop_duplication::duplication::{set_gpu_priority, set_thread_priority, ThreadPriorityPlan};
use win_desktop_duplication::utils::{convert_u16_to_string, find_terminal_idx};

#[test]
fn terminator_is_the_first_zero() {
    assert_eq!(find_terminal_idx(&[72, 105, 0, 88, 0]), 2);
    assert_eq!(find_terminal_idx(&[0, 1, 2]), 0);
    assert_eq!(find_terminal_idx(&[1, 2, 0]), 2);
    assert_eq!(find_terminal_idx(&[0]), 0);
}

#[test]
fn name_without_a_terminator_ends_with_the_buffer() {
    assert_eq!(find_terminal_idx(&[]), 0);
    assert_eq!(find_terminal_idx(&[7]), 1);
    assert_eq!(find_terminal_idx(&[1, 2, 3, 4]), 4);
    assert_eq!(find_terminal_idx(&[u16::MAX; 128]), 128);
}

#[test]
fn names_end_at_the_terminator() {
    assert_eq!(convert_u16_to_string(&[72, 105, 0, 88, 0]), "Hi");
    assert_eq!(convert_u16_to_string(&[72, 105]), "Hi");
    assert_eq!(convert_u16_to_string(&[0, 72, 105]), "");
    assert_eq!(convert_u16_to_string(&[]), "");
    let wide: Vec<u16> = "Grafikkarte \u{00e4}\u{1F5B5}".encode_utf16().chain([0, 0, 65]).collect();
    assert_eq!(convert_u16_to_string(&wide), "Grafikkarte \u{00e4}\u{1F5B5}");
}

#[test]
fn names_that_are_not_well_formed_are_patched() {
    assert_eq!(convert_u16_to_string(&[65, 0xD800, 66, 0]), "A\u{FFFD}B");
    assert_eq!(convert_u16_to_string(&[0xDC00]), "\u{FFFD}");
}

/// Walks a list of `count` items the way the adapters of the system and the
/// displays of an adapter are walked.
fn walk(cursor: &mut EnumCursor, count: u32) -> Vec<u32> {
    let mut seen = Vec::new();
    loop {
        let idx = cursor.idx;
        if !cursor.next(idx < count) {
            return seen;
        }
        seen.push(idx);
    }
}

#[test]
fn test_adapter_factory() {
    let mut factory = EnumCursor::new();
    assert_eq!(walk(&mut factory, 3), vec![0, 1, 2]);
    assert_eq!(factory.idx, 0);
    assert_eq!(walk(&mut factory, 3), vec![0, 1, 2]);
    assert_eq!(walk(&mut factory, 0), Vec::<u32>::new());
}

#[test]
fn test_adapter_methods() {
    let names = [vec![71u16, 80, 85, 32, 48, 0, 0, 0], vec![71u16, 80, 85, 32, 49, 0, 120, 0]];
    let mut factory = EnumCursor::default();
    for idx in walk(&mut factory, 2) {
        let name = convert_u16_to_string(&names[idx as usize]);
        println!("{}", name);
        assert_eq!(name, format!("GPU {}", idx));
    }
}

#[test]
fn enumeration_can_be_started_over() {
    let mut cursor = EnumCursor::new();
    assert!(cursor.next(true));
    assert!(cursor.next(true));
    assert_eq!(cursor.idx, 2);
    cursor.reset();
    assert_eq!(cursor.idx, 0);
    assert!(cursor.next(true));
    assert_eq!(cursor.idx, 1);
    assert!(!cursor.next(false));
    assert_eq!(cursor.idx, 0);
}

#[test]
fn priority_constants_are_those_of_the_system() {
    assert_eq!(HIGH_PRIORITY_CLASS, windows::Win32::System::Threading::HIGH_PRIORITY_CLASS.0);
    assert_eq!(REALTIME_PRIORITY_CLASS, windows::Win32::System::Threading::REALTIME_PRIORITY_CLASS.0);
    assert_eq!(THREAD_PRIORITY_HIGHEST, windows::Win32::System::Threading::THREAD_PRIORITY_HIGHEST.0);
    assert_eq!(
        THREAD_PRIORITY_TIME_CRITICAL,
        windows::Win32::System::Threading::THREAD_PRIORITY_TIME_CRITICAL.0
    );
    assert_eq!((GPU_PRIORITY_REALTIME, GPU_PRIORITY_HIGH), (5, 4));
}

#[test]
fn thread_priority_falls_back_one_tier() {
    assert_eq!(
        set_thread_priority(true),
        ThreadPriorityPlan { fallback_class: None, thread_priority: 15 }
    );
    assert_eq!(
        set_thread_priority(false),
        ThreadPriorityPlan { fallback_class: Some(128), thread_priority: 2 }
    );
}

#[test]
fn gpu_priority_falls_back_one_tier() {
    assert_eq!(set_gpu_priority(0), None);
    assert_eq!(set_gpu_priority(1), Some(4));
    assert_eq!(set_gpu_priority(0xC000_0022), Some(4));
}
