//! Frame metadata: what the OS reports with each frame event, how successive
//! reports are merged, and the snapshot handed to the consumer.

use vstd::prelude::*;

verus! {

/// A position on the desktop, in pixels.
#[derive(Clone, Copy, Debug, PartialEq, Eq, Structural)]
pub struct CursorPos {
    pub cx: i32,
    pub cy: i32,
}

impl Default for CursorPos {
    fn default() -> (r: Self)
        ensures
            r == (CursorPos { cx: 0, cy: 0 }),
    {
        CursorPos { cx: 0, cy: 0 }
    }
}

/// Where the pointer is, whether it is shown, and whether its shape changed.
#[derive(Clone, Copy, Debug, PartialEq, Eq, Structural)]
pub struct CursorInfo {
    pub visible: bool,
    pub updated: bool,
    pub position: CursorPos,
}

impl Default for CursorInfo {
    fn default() -> (r: Self)
        ensures
            r == (CursorInfo { visible: false, updated: false, position: CursorPos { cx: 0, cy: 0 } }),
    {
        CursorInfo { visible: false, updated: false, position: CursorPos { cx: 0, cy: 0 } }
    }
}

/// The metadata of the latest delivered frame.
#[derive(Clone, Copy, Debug, PartialEq, Eq, Structural)]
pub struct FrameInfo {
    pub last_present_time: i64,
    pub last_mouse_update_time: i64,
    pub accumulated_frames: u32,
    pub protected_content_masked_out: bool,
    pub pointer_info: CursorInfo,
}

impl FrameInfo {
    /// The snapshot of an engine that has nothing to report.
    pub open spec fn empty() -> FrameInfo {
        FrameInfo {
            last_present_time: 0,
            last_mouse_update_time: 0,
            accumulated_frames: 0,
            protected_content_masked_out: false,
            pointer_info: CursorInfo {
                visible: false,
                updated: false,
                position: CursorPos { cx: 0, cy: 0 },
            },
        }
    }

    /// The snapshot that stands for merged frame events.
    pub open spec fn of(raw: RawFrameInfo) -> FrameInfo {
        FrameInfo {
            last_present_time: raw.last_present_time,
            last_mouse_update_time: raw.last_mouse_update_time,
            accumulated_frames: raw.accumulated_frames,
            protected_content_masked_out: raw.protected_content_masked_out,
            pointer_info: CursorInfo {
                visible: raw.pointer_visible,
                updated: raw.pointer_shape_buffer_size != 0,
                position: raw.pointer_position,
            },
        }
    }

    /// Turns merged frame events into the snapshot for the consumer. The
    /// pointer counts as updated when a shape buffer was announced.
    pub fn from_raw(raw: &RawFrameInfo) -> (info: FrameInfo)
        ensures
            info == FrameInfo::of(*raw),
    {
        FrameInfo {
            last_present_time: raw.last_present_time,
            last_mouse_update_time: raw.last_mouse_update_time,
            accumulated_frames: raw.accumulated_frames,
            protected_content_masked_out: raw.protected_content_masked_out,
            pointer_info: CursorInfo {
                visible: raw.pointer_visible,
                updated: raw.pointer_shape_buffer_size != 0,
                position: raw.pointer_position,
            },
        }
    }
}

impl Default for FrameInfo {
    fn default() -> (r: Self)
        ensures
            r == FrameInfo::empty(),
    {
        FrameInfo {
            last_present_time: 0,
            last_mouse_update_time: 0,
            accumulated_frames: 0,
            protected_content_masked_out: false,
            pointer_info: CursorInfo {
                visible: false,
                updated: false,
                position: CursorPos { cx: 0, cy: 0 },
            },
        }
    }
}

/// One frame event as the OS reports it. A time of zero and a shape size of
/// zero mean "nothing new in this event".
#[derive(Clone, Copy, Debug, PartialEq, Eq, Structural)]
pub struct RawFrameInfo {
    pub last_present_time: i64,
    pub last_mouse_update_time: i64,
    pub accumulated_frames: u32,
    pub protected_content_masked_out: bool,
    pub pointer_position: CursorPos,
    pub pointer_visible: bool,
    pub pointer_shape_buffer_size: u32,
}

impl RawFrameInfo {
    /// The event that reports nothing.
    pub open spec fn zero() -> RawFrameInfo {
        RawFrameInfo {
            last_present_time: 0,
            last_mouse_update_time: 0,
            accumulated_frames: 0,
            protected_content_masked_out: false,
            pointer_position: CursorPos { cx: 0, cy: 0 },
            pointer_visible: false,
            pointer_shape_buffer_size: 0,
        }
    }

    /// The merge rule. The frame count is always the latest. The mouse time
    /// and the pointer position follow the latest event only when it reports a
    /// nonzero mouse time; the present time and the masking flag only when it
    /// reports a nonzero present time; the shape size only when it is nonzero.
    pub open spec fn merged(self, latest: RawFrameInfo) -> RawFrameInfo {
        let mouse = latest.last_mouse_update_time != 0;
        let present = latest.last_present_time != 0;
        RawFrameInfo {
            accumulated_frames: latest.accumulated_frames,
            last_mouse_update_time: if mouse {
                latest.last_mouse_update_time
            } else {
                self.last_mouse_update_time
            },
            pointer_position: if mouse {
                latest.pointer_position
            } else {
                self.pointer_position
            },
            pointer_visible: if mouse {
                latest.pointer_visible
            } else {
                self.pointer_visible
            },
            pointer_shape_buffer_size: if latest.pointer_shape_buffer_size != 0 {
                latest.pointer_shape_buffer_size
            } else {
                self.pointer_shape_buffer_size
            },
            last_present_time: if present {
                latest.last_present_time
            } else {
                self.last_present_time
            },
            protected_content_masked_out: if present {
                latest.protected_content_masked_out
            } else {
                self.protected_content_masked_out
            },
        }
    }

    /// Whether two values agree in every field but the frame count.
    pub open spec fn same_but_count(self, other: RawFrameInfo) -> bool {
        (RawFrameInfo { accumulated_frames: 0, ..self }) == (RawFrameInfo {
            accumulated_frames: 0,
            ..other
        })
    }

    /// What the engine remembers after `n` of `events` were merged, one after
    /// the other, into `self`.
    pub open spec fn merged_all(self, events: Seq<RawFrameInfo>, n: nat) -> RawFrameInfo
        decreases n,
    {
        if n == 0 || n > events.len() {
            self
        } else {
            self.merged_all(events, (n - 1) as nat).merged(events[n - 1])
        }
    }

    /// Merges the latest frame event into what was remembered so far.
    pub fn merge(&self, latest: &RawFrameInfo) -> (m: RawFrameInfo)
        ensures
            m == self.merged(*latest),
    {
        let mut m = *self;
        m.accumulated_frames = latest.accumulated_frames;
        if latest.last_mouse_update_time != 0 {
            m.last_mouse_update_time = latest.last_mouse_update_time;
            m.pointer_position = latest.pointer_position;
            m.pointer_visible = latest.pointer_visible;
        }
        if latest.pointer_shape_buffer_size != 0 {
            m.pointer_shape_buffer_size = latest.pointer_shape_buffer_size;
        }
        if latest.last_present_time != 0 {
            m.last_present_time = latest.last_present_time;
            m.protected_content_masked_out = latest.protected_content_masked_out;
        }
        m
    }
}

impl Default for RawFrameInfo {
    fn default() -> (r: Self)
        ensures
            r == RawFrameInfo::zero(),
    {
        RawFrameInfo {
            last_present_time: 0,
            last_mouse_update_time: 0,
            accumulated_frames: 0,
            protected_content_masked_out: false,
            pointer_position: CursorPos { cx: 0, cy: 0 },
            pointer_visible: false,
            pointer_shape_buffer_size: 0,
        }
    }
}

/// What is remembered after merging `latest` into an optional earlier value:
/// a missing earlier value counts as the event that reports nothing.
pub open spec fn remembered(prev: Option<RawFrameInfo>, latest: RawFrameInfo) -> RawFrameInfo {
    match prev {
        Some(p) => p.merged(latest),
        None => RawFrameInfo::zero().merged(latest),
    }
}

/// Merges a frame event into what is remembered; nothing remembered counts
/// as the event that reports nothing.
pub fn merge_into(prev: &Option<RawFrameInfo>, latest: &RawFrameInfo) -> (m: RawFrameInfo)
    ensures
        m == remembered(*prev, *latest),
{
    match prev {
        Some(p) => p.merge(latest),
        None => RawFrameInfo::default().merge(latest),
    }
}

/// Merging an event that reports no new mouse time, present time or shape
/// changes nothing but the frame count.
pub proof fn lemma_merge_quiet_event(prev: RawFrameInfo, latest: RawFrameInfo)
    requires
        latest.last_mouse_update_time == 0,
        latest.last_present_time == 0,
        latest.pointer_shape_buffer_size == 0,
    ensures
        prev.merged(latest).same_but_count(prev),
        prev.merged(latest).accumulated_frames == latest.accumulated_frames,
{
}

/// When the events of a run differ in nothing but the frame count, then after
/// each of them the remembered mouse, pointer and present fields are those
/// remembered after the first, and the frame count is that of the event
/// merged last.
pub proof fn lemma_merge_only_count_changes(
    start: RawFrameInfo,
    events: Seq<RawFrameInfo>,
    k: nat,
)
    requires
        1 <= k <= events.len(),
        forall|i: int| 0 <= i < events.len() ==> (#[trigger] events[i]).same_but_count(events[0]),
    ensures
        start.merged_all(events, k).same_but_count(start.merged_all(events, 1)),
        start.merged_all(events, k).accumulated_frames == events[k - 1].accumulated_frames,
        FrameInfo::of(start.merged_all(events, k)).pointer_info == FrameInfo::of(
            start.merged_all(events, 1),
        ).pointer_info,
        FrameInfo::of(start.merged_all(events, k)).last_present_time == FrameInfo::of(
            start.merged_all(events, 1),
        ).last_present_time,
        FrameInfo::of(start.merged_all(events, k)).last_mouse_update_time == FrameInfo::of(
            start.merged_all(events, 1),
        ).last_mouse_update_time,
        FrameInfo::of(start.merged_all(events, k)).protected_content_masked_out == FrameInfo::of(
            start.merged_all(events, 1),
        ).protected_content_masked_out,
        FrameInfo::of(start.merged_all(events, k)).accumulated_frames == events[k
            - 1].accumulated_frames,
    decreases k,
{
    reveal_with_fuel(RawFrameInfo::merged_all, 2);
    if k > 1 {
        lemma_merge_only_count_changes(start, events, (k - 1) as nat);
        assert(events[k - 1].same_but_count(events[0]));
        assert(start.merged_all(events, 1) == start.merged(events[0]));
        assert(start.merged_all(events, k) == start.merged_all(events, (k - 1) as nat).merged(
            events[k - 1],
        ));
    }
}

} // verus!
