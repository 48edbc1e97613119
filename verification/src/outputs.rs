//! Display modes of an output: the mode as the library describes it, the
//! device settings the OS speaks, and the pacing of the vertical-sync stream.

use vstd::prelude::*;
use vstd::std_specs::convert::FromSpecImpl;
use crate::errors::{DDApiError, Result};

verus! {

/// `DM_DISPLAYORIENTATION`.
pub const DM_DISPLAYORIENTATION: u32 = 128;

/// `DM_BITSPERPEL`.
pub const DM_BITSPERPEL: u32 = 262144;

/// `DM_PELSWIDTH`.
pub const DM_PELSWIDTH: u32 = 524288;

/// `DM_PELSHEIGHT`.
pub const DM_PELSHEIGHT: u32 = 1048576;

/// `DM_DISPLAYFREQUENCY`.
pub const DM_DISPLAYFREQUENCY: u32 = 4194304;

/// `DISP_CHANGE_SUCCESSFUL`.
pub const DISP_CHANGE_SUCCESSFUL: i32 = 0;

/// How a display is turned.
#[derive(Clone, Copy, Debug, PartialEq, Eq, Structural)]
pub enum DisplayOrientation {
    /// Landscape.
    NoRotation,
    /// Portrait.
    Rotate90,
    /// Landscape, flipped.
    Rotate180,
    /// Portrait, flipped.
    Rotate270,
}

impl Default for DisplayOrientation {
    fn default() -> (r: Self)
        ensures
            r == DisplayOrientation::NoRotation,
    {
        DisplayOrientation::NoRotation
    }
}

impl DisplayOrientation {
    /// The orientation that a device orientation value stands for. Values
    /// without a meaning count as not rotated.
    pub open spec fn of_raw(raw: u32) -> DisplayOrientation {
        if raw == 1 {
            DisplayOrientation::Rotate90
        } else if raw == 2 {
            DisplayOrientation::Rotate180
        } else if raw == 3 {
            DisplayOrientation::Rotate270
        } else {
            DisplayOrientation::NoRotation
        }
    }

    /// The device orientation value of an orientation.
    pub open spec fn raw(self) -> u32 {
        match self {
            DisplayOrientation::NoRotation => 0,
            DisplayOrientation::Rotate90 => 1,
            DisplayOrientation::Rotate180 => 2,
            DisplayOrientation::Rotate270 => 3,
        }
    }

    /// Whether width and height change places.
    pub open spec fn is_portrait(self) -> bool {
        self == DisplayOrientation::Rotate90 || self == DisplayOrientation::Rotate270
    }

    /// Converts into the device orientation value.
    pub fn to_raw(self) -> (r: u32)
        ensures
            r == self.raw(),
    {
        match self {
            DisplayOrientation::NoRotation => 0,
            DisplayOrientation::Rotate90 => 1,
            DisplayOrientation::Rotate180 => 2,
            DisplayOrientation::Rotate270 => 3,
        }
    }

    /// Whether width and height change places.
    pub fn portrait(self) -> (r: bool)
        ensures
            r == self.is_portrait(),
    {
        match self {
            DisplayOrientation::Rotate90 => true,
            DisplayOrientation::Rotate270 => true,
            _ => false,
        }
    }
}

impl From<u32> for DisplayOrientation {
    fn from(i: u32) -> (r: Self) {
        if i == 1 {
            DisplayOrientation::Rotate90
        } else if i == 2 {
            DisplayOrientation::Rotate180
        } else if i == 3 {
            DisplayOrientation::Rotate270
        } else {
            DisplayOrientation::NoRotation
        }
    }
}

impl FromSpecImpl<u32> for DisplayOrientation {
    open spec fn obeys_from_spec() -> bool {
        true
    }

    open spec fn from_spec(i: u32) -> Self {
        DisplayOrientation::of_raw(i)
    }
}

/// Every orientation survives the way to its device value and back.
pub proof fn lemma_orientation_round_trip(o: DisplayOrientation)
    ensures
        DisplayOrientation::of_raw(o.raw()) == o,
{
}

/// One display mode of a monitor: resolution, refresh rate and orientation.
/// Width and height are those of the default orientation: a 1920 x 1080
/// monitor has width 1920 however it is turned.
#[derive(Clone, Copy, Debug, PartialEq, Eq, Structural)]
pub struct DisplayMode {
    /// Width in pixels.
    pub width: u32,
    /// Height in pixels.
    pub height: u32,
    pub orientation: DisplayOrientation,
    /// The refresh rate is a fraction; this is its numerator.
    pub refresh_num: u32,
    /// The denominator of the refresh rate.
    pub refresh_den: u32,
    /// Whether the output runs in 16 bit per channel instead of 8.
    pub hdr: bool,
}

impl Default for DisplayMode {
    fn default() -> (r: Self)
        ensures
            r == DisplayMode::empty(),
    {
        DisplayMode {
            width: 0,
            height: 0,
            orientation: DisplayOrientation::NoRotation,
            refresh_num: 0,
            refresh_den: 0,
            hdr: false,
        }
    }
}

/// The part of the device settings of the OS that stands for a display mode.
/// Width and height are those of the picture as it is shown.
#[derive(Clone, Copy, Debug, PartialEq, Eq, Structural)]
pub struct DeviceSettings {
    pub pels_width: u32,
    pub pels_height: u32,
    pub bits_per_pel: u32,
    pub display_frequency: u32,
    /// The device orientation value.
    pub display_orientation: u32,
    /// Which of the members are meant.
    pub fields: u32,
}

/// One entry of the mode list of an output.
#[derive(Clone, Copy, Debug, PartialEq, Eq, Structural)]
pub struct RawDisplayMode {
    pub width: u32,
    pub height: u32,
    pub refresh_num: u32,
    pub refresh_den: u32,
}

impl DisplayMode {
    /// The mode with nothing set.
    pub open spec fn empty() -> DisplayMode {
        DisplayMode {
            width: 0,
            height: 0,
            orientation: DisplayOrientation::NoRotation,
            refresh_num: 0,
            refresh_den: 0,
            hdr: false,
        }
    }

    /// The device settings that ask for a mode. In portrait orientations
    /// width and height change places; the frequency is the refresh rate in
    /// whole Hertz; 64 bits per pixel stand for HDR, 32 for SDR.
    pub open spec fn settings(self) -> DeviceSettings {
        DeviceSettings {
            pels_width: if self.orientation.is_portrait() {
                self.height
            } else {
                self.width
            },
            pels_height: if self.orientation.is_portrait() {
                self.width
            } else {
                self.height
            },
            bits_per_pel: if self.hdr {
                64
            } else {
                32
            },
            display_frequency: (self.refresh_num / self.refresh_den) as u32,
            display_orientation: self.orientation.raw(),
            fields: DM_PELSWIDTH | DM_PELSHEIGHT | DM_DISPLAYFREQUENCY | DM_BITSPERPEL
                | DM_DISPLAYORIENTATION,
        }
    }

    /// The mode that device settings stand for. The refresh rate is the
    /// frequency over one; anything but 32 bits per pixel counts as HDR.
    pub open spec fn of_settings(s: DeviceSettings) -> DisplayMode {
        let orientation = DisplayOrientation::of_raw(s.display_orientation);
        DisplayMode {
            width: if orientation.is_portrait() {
                s.pels_height
            } else {
                s.pels_width
            },
            height: if orientation.is_portrait() {
                s.pels_width
            } else {
                s.pels_height
            },
            orientation,
            refresh_num: s.display_frequency,
            refresh_den: 1,
            hdr: s.bits_per_pel != 32,
        }
    }

    /// The mode that an entry of the mode list stands for.
    pub open spec fn of_raw(raw: RawDisplayMode, hdr: bool) -> DisplayMode {
        DisplayMode {
            width: raw.width,
            height: raw.height,
            orientation: DisplayOrientation::NoRotation,
            refresh_num: raw.refresh_num,
            refresh_den: raw.refresh_den,
            hdr,
        }
    }

    /// Builds the device settings with which this mode is set. The
    /// denominator of the refresh rate must not be zero.
    pub fn set_display_mode(&self) -> (s: DeviceSettings)
        requires
            self.refresh_den != 0,
        ensures
            s == self.settings(),
    {
        let portrait = self.orientation.portrait();
        DeviceSettings {
            pels_width: if portrait {
                self.height
            } else {
                self.width
            },
            pels_height: if portrait {
                self.width
            } else {
                self.height
            },
            bits_per_pel: if self.hdr {
                64
            } else {
                32
            },
            display_frequency: self.refresh_num / self.refresh_den,
            display_orientation: self.orientation.to_raw(),
            fields: DM_PELSWIDTH | DM_PELSHEIGHT | DM_DISPLAYFREQUENCY | DM_BITSPERPEL
                | DM_DISPLAYORIENTATION,
        }
    }

    /// Reads the current mode out of the device settings of the OS.
    pub fn get_current_display_mode(s: &DeviceSettings) -> (mode: DisplayMode)
        ensures
            mode == DisplayMode::of_settings(*s),
    {
        let orientation = DisplayOrientation::from(s.display_orientation);
        let portrait = orientation.portrait();
        DisplayMode {
            width: if portrait {
                s.pels_height
            } else {
                s.pels_width
            },
            height: if portrait {
                s.pels_width
            } else {
                s.pels_height
            },
            orientation,
            refresh_num: s.display_frequency,
            refresh_den: 1,
            hdr: s.bits_per_pel != 32,
        }
    }
}

/// Setting a mode and reading it back gives the same mode, with the refresh
/// rate in whole Hertz.
pub proof fn lemma_mode_round_trip(mode: DisplayMode)
    requires
        mode.refresh_den != 0,
    ensures
        DisplayMode::of_settings(mode.settings()) == (DisplayMode {
            refresh_num: (mode.refresh_num / mode.refresh_den) as u32,
            refresh_den: 1,
            ..mode
        }),
{
}

/// What the OS answered to a change of the display settings: any status but
/// success is a parameter that the display does not take.
pub fn change_result(status: i32, detail: String) -> (r: Result<()>)
    ensures
        status == DISP_CHANGE_SUCCESSFUL ==> r is Ok,
        status != DISP_CHANGE_SUCCESSFUL ==> r == Err::<(), DDApiError>(
            DDApiError::BadParam(detail),
        ),
{
    if status != DISP_CHANGE_SUCCESSFUL {
        Err(DDApiError::BadParam(detail))
    } else {
        Ok(())
    }
}

/// Appends the modes of one mode list of an output to `mode_list`, in their
/// order, each marked as HDR or not.
pub fn fill_modes(modes: &[RawDisplayMode], hdr: bool, mode_list: &mut Vec<DisplayMode>)
    ensures
        final(mode_list)@ == old(mode_list)@ + modes@.map_values(
            |raw: RawDisplayMode| DisplayMode::of_raw(raw, hdr),
        ),
{
    let ghost mapped = modes@.map_values(|raw: RawDisplayMode| DisplayMode::of_raw(raw, hdr));
    let mut i: usize = 0;
    while i < modes.len()
        invariant
            i <= modes@.len(),
            mapped == modes@.map_values(|raw: RawDisplayMode| DisplayMode::of_raw(raw, hdr)),
            mode_list@ == old(mode_list)@ + mapped.subrange(0, i as int),
        decreases modes@.len() - i,
    {
        let raw = modes[i];
        mode_list.push(
            DisplayMode {
                width: raw.width,
                height: raw.height,
                orientation: DisplayOrientation::NoRotation,
                refresh_num: raw.refresh_num,
                refresh_den: raw.refresh_den,
                hdr,
            },
        );
        i += 1;
        assert(mapped.subrange(0, i as int) == mapped.subrange(0, i - 1).push(mapped[i - 1]));
    }
    assert(mapped.subrange(0, i as int) == mapped);
}

/// The display modes of an output: those of its SDR mode list, then those
/// of its HDR mode list.
pub fn get_display_modes(sdr: &[RawDisplayMode], hdr: &[RawDisplayMode]) -> (out: Vec<DisplayMode>)
    ensures
        out@ == sdr@.map_values(|raw: RawDisplayMode| DisplayMode::of_raw(raw, false))
            + hdr@.map_values(|raw: RawDisplayMode| DisplayMode::of_raw(raw, true)),
{
    let mut out: Vec<DisplayMode> = Vec::new();
    fill_modes(sdr, false, &mut out);
    fill_modes(hdr, true, &mut out);
    out
}

/// What the waiting thread has sent since the stream was asked last.
#[derive(Clone, Copy, Debug, PartialEq, Eq, Structural)]
pub enum VSyncSignal {
    /// Nothing yet.
    Empty,
    /// The thread is gone.
    Disconnected,
    /// A vertical blank has passed.
    Tick,
    /// Waiting for the vertical blank failed.
    Failed,
}

/// What the stream answers when it is polled.
#[derive(Clone, Copy, Debug, PartialEq, Eq, Structural)]
pub enum VSyncPoll {
    /// Nothing to report yet. With `start_thread` the waiting thread has to
    /// be started now.
    Pending { start_thread: bool },
    /// A vertical blank has passed.
    Tick,
    /// The stream has ended.
    Ended,
}

/// The stream of vertical-sync ticks of a display. A thread of its own waits
/// for the vertical blank; it is started when the stream is polled first.
#[derive(Clone, Copy, Debug, PartialEq, Eq, Structural)]
pub struct DisplayVSyncStream {
    /// The waiting thread was started.
    pub started: bool,
}

impl DisplayVSyncStream {
    /// The answer to a poll and whether the thread counts as started
    /// afterwards.
    pub open spec fn polled(self, signal: VSyncSignal) -> (DisplayVSyncStream, VSyncPoll) {
        match signal {
            VSyncSignal::Empty => (
                DisplayVSyncStream { started: true },
                VSyncPoll::Pending { start_thread: !self.started },
            ),
            VSyncSignal::Tick => (self, VSyncPoll::Tick),
            _ => (self, VSyncPoll::Ended),
        }
    }

    /// A stream whose thread is not running yet.
    pub fn new() -> (s: Self)
        ensures
            !s.started,
    {
        DisplayVSyncStream { started: false }
    }

    /// Answers a poll. A tick is passed on; a failure ends the stream; with
    /// nothing to report the stream is pending, and the waiting thread is
    /// started if it is not running. The thread must not be gone.
    pub fn poll_next(&mut self, signal: VSyncSignal) -> (poll: VSyncPoll)
        requires
            signal != VSyncSignal::Disconnected,
        ensures
            (*final(self), poll) == old(self).polled(signal),
    {
        match signal {
            VSyncSignal::Empty => {
                let start_thread = !self.started;
                self.started = true;
                VSyncPoll::Pending { start_thread }
            },
            VSyncSignal::Tick => VSyncPoll::Tick,
            _ => VSyncPoll::Ended,
        }
    }
}

/// The waiting thread is started once: by the first poll that finds nothing.
pub proof fn lemma_thread_started_once(stream: DisplayVSyncStream, first: VSyncSignal, second: VSyncSignal)
    ensures
        stream.polled(first).0.polled(second).1 matches VSyncPoll::Pending { start_thread }
            ==> (start_thread <==> !stream.started && first != VSyncSignal::Empty),
{
}

} // verus!
