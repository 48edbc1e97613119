use win_desktop_duplication::outputs::{
    change_result, fill_modes, get_display_modes, DeviceSettings, DisplayMode,
    DisplayOrientation, DisplayVSyncStream, RawDisplayMode, VSyncPoll, VSyncSignal,
    DISP_CHANGE_SUCCESSFUL, DM_BITSPERPEL, DM_DISPLAYFREQUENCY, DM_DISPLAYORIENTATION,
    DM_PELSHEIGHT, DM_PELSWIDTH,
};
use win_desktop_duplication::utils::convert_u16_to_string;
use win_desktop_duplication::DDApiError;

const ALL_FIELDS: u32 = 0x80 | 0x40000 | 0x80000 | 0x100000 | 0x400000;

fn wide(text: &str, len: usize) -> Vec<u16> {
    let mut units: Vec<u16> = text.encode_utf16().collect();
    units.resize(len, 0);
    units
}

#[test]
fn settings_constants_are_those_of_the_graphics_stack() {
    assert_eq!(DM_DISPLAYORIENTATION, windows::Win32::Graphics::Gdi::DM_DISPLAYORIENTATION.0);
    assert_eq!(DM_BITSPERPEL, windows::Win32::Graphics::Gdi::DM_BITSPERPEL.0);
    assert_eq!(DM_PELSWIDTH, windows::Win32::Graphics::Gdi::DM_PELSWIDTH.0);
    assert_eq!(DM_PELSHEIGHT, windows::Win32::Graphics::Gdi::DM_PELSHEIGHT.0);
    assert_eq!(DM_DISPLAYFREQUENCY, windows::Win32::Graphics::Gdi::DM_DISPLAYFREQUENCY.0);
    assert_eq!(DISP_CHANGE_SUCCESSFUL, windows::Win32::Graphics::Gdi::DISP_CHANGE_SUCCESSFUL.0);
    assert_eq!(DisplayOrientation::NoRotation.to_raw(), windows::Win32::Graphics::Gdi::DMDO_DEFAULT.0);
    assert_eq!(DisplayOrientation::Rotate90.to_raw(), windows::Win32::Graphics::Gdi::DMDO_90.0);
    assert_eq!(DisplayOrientation::Rotate180.to_raw(), windows::Win32::Graphics::Gdi::DMDO_180.0);
    assert_eq!(DisplayOrientation::Rotate270.to_raw(), windows::Win32::Graphics::Gdi::DMDO_270.0);
}

#[test]
fn orientations_by_device_value() {
    assert_eq!(DisplayOrientation::from(0), DisplayOrientation::NoRotation);
    assert_eq!(DisplayOrientation::from(1), DisplayOrientation::Rotate90);
    assert_eq!(DisplayOrientation::from(2), DisplayOrientation::Rotate180);
    assert_eq!(DisplayOrientation::from(3), DisplayOrientation::Rotate270);
    assert_eq!(DisplayOrientation::from(4), DisplayOrientation::NoRotation);
    assert_eq!(DisplayOrientation::from(u32::MAX), DisplayOrientation::NoRotation);
    assert_eq!(DisplayOrientation::default(), DisplayOrientation::NoRotation);
    for o in [
        DisplayOrientation::NoRotation,
        DisplayOrientation::Rotate90,
        DisplayOrientation::Rotate180,
        DisplayOrientation::Rotate270,
    ] {
        assert_eq!(DisplayOrientation::from(o.to_raw()), o);
    }
    assert!(DisplayOrientation::Rotate90.portrait());
    assert!(DisplayOrientation::Rotate270.portrait());
    assert!(!DisplayOrientation::NoRotation.portrait());
    assert!(!DisplayOrientation::Rotate180.portrait());
}

#[test]
fn test_display_names() {
    let adapters = [wide("NVIDIA GeForce", 128), wide("Intel(R) UHD Graphics", 128)];
    let displays = [wide("\\\\.\\DISPLAY1", 32), wide("\\\\.\\DISPLAY2", 32)];
    for (i, adapter) in adapters.iter().enumerate() {
        let name = convert_u16_to_string(adapter);
        println!("{}", name);
        assert_eq!(name, ["NVIDIA GeForce", "Intel(R) UHD Graphics"][i]);
        for (j, display) in displays.iter().enumerate() {
            let name = convert_u16_to_string(display);
            println!("\t{}", name);
            assert_eq!(name, ["\\\\.\\DISPLAY1", "\\\\.\\DISPLAY2"][j]);
        }
    }
}

#[test]
fn test_display_modes() {
    let sdr = [
        RawDisplayMode { width: 1920, height: 1080, refresh_num: 60000, refresh_den: 1001 },
        RawDisplayMode { width: 1280, height: 720, refresh_num: 60, refresh_den: 1 },
    ];
    let hdr = [RawDisplayMode { width: 3840, height: 2160, refresh_num: 120, refresh_den: 1 }];
    let modes = get_display_modes(&sdr, &hdr);
    println!("{:?}", modes);
    assert_eq!(
        modes,
        vec![
            DisplayMode {
                width: 1920,
                height: 1080,
                orientation: DisplayOrientation::NoRotation,
                refresh_num: 60000,
                refresh_den: 1001,
                hdr: false,
            },
            DisplayMode {
                width: 1280,
                height: 720,
                orientation: DisplayOrientation::NoRotation,
                refresh_num: 60,
                refresh_den: 1,
                hdr: false,
            },
            DisplayMode {
                width: 3840,
                height: 2160,
                orientation: DisplayOrientation::NoRotation,
                refresh_num: 120,
                refresh_den: 1,
                hdr: true,
            },
        ]
    );
    assert_eq!(get_display_modes(&[], &[]), Vec::new());
}

#[test]
fn modes_are_appended_to_the_list() {
    let one = RawDisplayMode { width: 1, height: 2, refresh_num: 3, refresh_den: 4 };
    let mut list = vec![DisplayMode::default()];
    fill_modes(&[one, one], true, &mut list);
    assert_eq!(list.len(), 3);
    assert_eq!(list[0], DisplayMode::default());
    assert_eq!(list[1], list[2]);
    assert_eq!(
        list[1],
        DisplayMode {
            width: 1,
            height: 2,
            orientation: DisplayOrientation::NoRotation,
            refresh_num: 3,
            refresh_den: 4,
            hdr: true,
        }
    );
    fill_modes(&[], false, &mut list);
    assert_eq!(list.len(), 3);
}

#[test]
fn test_display_setting_change() {
    let curr_settings = DisplayMode::get_current_display_mode(&DeviceSettings {
        pels_width: 2560,
        pels_height: 1440,
        bits_per_pel: 32,
        display_frequency: 144,
        display_orientation: 0,
        fields: 0,
    });
    let mode = DisplayMode {
        width: 1920,
        height: 1080,
        orientation: DisplayOrientation::Rotate180,
        refresh_num: 60,
        refresh_den: 1,
        hdr: false,
    };
    let settings = mode.set_display_mode();
    assert_eq!(
        settings,
        DeviceSettings {
            pels_width: 1920,
            pels_height: 1080,
            bits_per_pel: 32,
            display_frequency: 60,
            display_orientation: 2,
            fields: ALL_FIELDS,
        }
    );
    assert!(change_result(0, String::new()).is_ok());
    assert_eq!(DisplayMode::get_current_display_mode(&settings), mode);
    let back = curr_settings.set_display_mode();
    assert_eq!((back.pels_width, back.pels_height, back.display_frequency), (2560, 1440, 144));
    println!("{:?}", curr_settings);
}

#[test]
fn portrait_modes_change_width_and_height() {
    for orientation in [DisplayOrientation::Rotate90, DisplayOrientation::Rotate270] {
        let mode = DisplayMode {
            width: 1920,
            height: 1080,
            orientation,
            refresh_num: 60000,
            refresh_den: 1001,
            hdr: true,
        };
        let settings = mode.set_display_mode();
        assert_eq!((settings.pels_width, settings.pels_height), (1080, 1920));
        assert_eq!(settings.bits_per_pel, 64);
        assert_eq!(settings.display_frequency, 59);
        assert_eq!(settings.display_orientation, orientation.to_raw());
        assert_eq!(settings.fields, ALL_FIELDS);
        let read = DisplayMode::get_current_display_mode(&settings);
        assert_eq!(read, DisplayMode { refresh_num: 59, refresh_den: 1, ..mode });
    }
}

#[test]
fn test_get_display_mode() {
    let curr_settings = DisplayMode::get_current_display_mode(&DeviceSettings {
        pels_width: 1080,
        pels_height: 1920,
        bits_per_pel: 64,
        display_frequency: 75,
        display_orientation: 3,
        fields: ALL_FIELDS,
    });
    println!("{:?}", curr_settings);
    assert_eq!(
        curr_settings,
        DisplayMode {
            width: 1920,
            height: 1080,
            orientation: DisplayOrientation::Rotate270,
            refresh_num: 75,
            refresh_den: 1,
            hdr: true,
        }
    );
    let odd = DisplayMode::get_current_display_mode(&DeviceSettings {
        pels_width: 800,
        pels_height: 600,
        bits_per_pel: 16,
        display_frequency: 0,
        display_orientation: 9,
        fields: 0,
    });
    assert_eq!(
        odd,
        DisplayMode {
            width: 800,
            height: 600,
            orientation: DisplayOrientation::NoRotation,
            refresh_num: 0,
            refresh_den: 1,
            hdr: true,
        }
    );
}

#[test]
fn refused_settings_are_a_bad_parameter() {
    assert!(change_result(DISP_CHANGE_SUCCESSFUL, "unused".to_string()).is_ok());
    for status in [1, -1, -2, -5, i32::MIN] {
        let detail = format!("failed to change display settings. DISP_CHANGE={}", status);
        match change_result(status, detail.clone()) {
            Err(DDApiError::BadParam(d)) => assert_eq!(d, detail),
            other => panic!("{:?}", other),
        }
    }
}

#[test]
fn test_display_sync_stream() {
    let mut stream = DisplayVSyncStream::new();
    assert!(!stream.started);
    let total = 5;
    let mut counter = 0;
    let mut threads = 0;
    for n in 0..total * 60 {
        let signal = if n % 2 == 0 { VSyncSignal::Empty } else { VSyncSignal::Tick };
        match stream.poll_next(signal) {
            VSyncPoll::Pending { start_thread } => {
                if start_thread {
                    threads += 1;
                }
            }
            VSyncPoll::Tick => counter += 1,
            VSyncPoll::Ended => panic!("the stream ended"),
        }
    }
    println!("{}", counter);
    assert_eq!(counter, total * 30);
    assert_eq!(threads, 1);
    assert!(stream.started);
}

#[test]
fn sync_stream_ends_on_failure() {
    let mut stream = DisplayVSyncStream::new();
    assert_eq!(stream.poll_next(VSyncSignal::Tick), VSyncPoll::Tick);
    assert!(!stream.started);
    assert_eq!(stream.poll_next(VSyncSignal::Failed), VSyncPoll::Ended);
    assert_eq!(stream.poll_next(VSyncSignal::Empty), VSyncPoll::Pending { start_thread: true });
    assert_eq!(stream.poll_next(VSyncSignal::Empty), VSyncPoll::Pending { start_thread: false });
    assert_eq!(stream.poll_next(VSyncSignal::Failed), VSyncPoll::Ended);
}
