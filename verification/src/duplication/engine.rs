//! The synchronous core of the capture engine, as a state machine.
//!
//! The engine decides; a driver acts. Each call hands the driver exactly one
//! [`EngineAction`]. The driver performs it against the OS and reports what
//! happened as one [`EngineEvent`], together with a reading of a monotonic
//! clock in nanoseconds. A request starts with
//! [`InternalDesktopDuplicationApi::acquire_next_frame`] and is over when the
//! engine answers [`EngineAction::Finish`].

use vstd::prelude::*;
use crate::duplication::buffers::{
    BufferRole,
    DuplicationState,
    TextureRequest,
    CONSUMER_KEY,
    LOCK_WAIT_MS,
    PRODUCER_KEY,
};
use crate::duplication::cursor::{CursorKind, CursorShape, DuplicationApiOptions, PointerShapeInfo};
use crate::duplication::frame_info::{merge_into, remembered, FrameInfo, RawFrameInfo};
use crate::errors::{
    session_error,
    session_error_of,
    AcquireFailure,
    DDApiError,
    Result,
    DXGI_ERROR_MORE_DATA,
};
use crate::texture::{
    ColorFormat,
    TextureDesc,
    DXGI_FORMAT_B8G8R8A8_UNORM,
    DXGI_FORMAT_R10G10B10A2_UNORM,
    DXGI_FORMAT_R16G16B16A16_FLOAT,
};

verus! {

/// `CURSOR_SHOWING`: the flag of a pointer that is on screen.
pub const CURSOR_SHOWING: u32 = 1;

/// Nanoseconds in a millisecond.
pub const NANOS_PER_MILLI: u128 = 1000000;

/// The longest wait for a frame that is asked of the OS at once, in
/// milliseconds. The one value above it stands for a wait without end.
pub const MAX_WAIT_MS: u32 = 0xFFFF_FFFE;

/// The pixel formats in which a session may deliver its frames, in the order
/// of preference: 8 bit BGRA, 10 bit RGB with 2 bit alpha, 16 bit float RGBA.
pub open spec fn accepted_formats() -> Seq<ColorFormat> {
    seq![ColorFormat::ABGR8UNorm, ColorFormat::ARGB10UNorm, ColorFormat::ARGB16Float]
}

/// The DXGI codes of the formats that are offered to the OS when a session is
/// created. An output that can deliver none of them is unsupported.
pub fn supported_formats() -> (codes: [i32; 3])
    ensures
        codes@.len() == accepted_formats().len(),
        forall|i: int|
            0 <= i < 3 ==> #[trigger] codes@[i] == accepted_formats()[i].dxgi_code()
                && ColorFormat::of_dxgi(codes@[i]) == accepted_formats()[i],
        codes@ == seq![
            DXGI_FORMAT_B8G8R8A8_UNORM,
            DXGI_FORMAT_R10G10B10A2_UNORM,
            DXGI_FORMAT_R16G16B16A16_FLOAT,
        ],
{
    let codes: [i32; 3] = [
        ColorFormat::ABGR8UNorm.to_dxgi(),
        ColorFormat::ARGB10UNorm.to_dxgi(),
        ColorFormat::ARGB16Float.to_dxgi(),
    ];
    assert(codes@ =~= seq![
        DXGI_FORMAT_B8G8R8A8_UNORM,
        DXGI_FORMAT_R10G10B10A2_UNORM,
        DXGI_FORMAT_R16G16B16A16_FLOAT,
    ]);
    codes
}

/// What the OS tells about the pointer of the system.
#[derive(Clone, Copy, Debug, PartialEq, Eq, Structural)]
pub struct RawCursor {
    pub flags: u32,
    /// The handle that identifies the pointer.
    pub handle: isize,
    /// The position on screen.
    pub x: i32,
    pub y: i32,
}

impl RawCursor {
    /// Whether the pointer is on screen.
    pub open spec fn showing(self) -> bool {
        self.flags & CURSOR_SHOWING == CURSOR_SHOWING
    }

    /// Whether the pointer is on screen.
    pub fn is_showing(&self) -> (r: bool)
        ensures
            r == self.showing(),
    {
        self.flags & CURSOR_SHOWING == CURSOR_SHOWING
    }

    /// Where the top left corner of the pointer is drawn so that its hotspot
    /// comes to lie on its screen position: the position less the hotspot, in
    /// 32 bit arithmetic.
    pub fn draw_origin(&self, hotspot_x: i32, hotspot_y: i32) -> (origin: (i32, i32))
        ensures
            origin == (self.x.wrapping_sub(hotspot_x), self.y.wrapping_sub(hotspot_y)),
            i32::MIN <= self.x - hotspot_x <= i32::MAX ==> origin.0 == self.x - hotspot_x,
            i32::MIN <= self.y - hotspot_y <= i32::MAX ==> origin.1 == self.y - hotspot_y,
    {
        (self.x.wrapping_sub(hotspot_x), self.y.wrapping_sub(hotspot_y))
    }
}

/// Where a copy takes its pixels from.
#[derive(Clone, Copy, Debug, PartialEq, Eq, Structural)]
pub enum FrameSource {
    /// The surface of the frame that is outstanding at the OS.
    Fresh,
    /// A buffer of the engine.
    Buffer(BufferRole),
}

/// What the driver has to do next.
#[derive(Debug)]
pub enum EngineAction {
    /// Create the duplication session. Answered by `SessionOpened` or
    /// `SessionRefused`.
    OpenSession,
    /// Drop the session and every buffer. Answered by `Completed`.
    CloseSession,
    /// Try to attach the thread to the desktop that receives input. The
    /// outcome does not matter. Answered by `Completed`.
    SwitchDesktop,
    /// Give the outstanding frame back to the OS. Answered by `Completed`.
    ReleaseFrame,
    /// Wait up to `timeout_ms` for the next frame. Answered by `Acquired` or
    /// `AcquireFailed`.
    AcquireNext { timeout_ms: u32 },
    /// Read the pointer shape of the outstanding frame into a buffer of
    /// `capacity` bytes. Answered by `ShapeRead` or `ShapeFailed`.
    ReadPointerShape { capacity: u32 },
    /// Create the buffer of a role. Answered by `BufferCreated` or
    /// `BufferFailed`.
    CreateBuffer { role: BufferRole, request: TextureRequest },
    /// Take the keyed mutex of a shared buffer under `key`, waiting at most
    /// `wait_ms`. Answered by `Locked` or `LockTimedOut`.
    LockBuffer { role: BufferRole, key: u64, wait_ms: u32 },
    /// Give the keyed mutex of a shared buffer back under `key`. Answered by
    /// `Completed`.
    UnlockBuffer { role: BufferRole, key: u64 },
    /// Copy a whole surface on the GPU. Answered by `Completed`.
    CopyFrame { from: FrameSource, to: BufferRole },
    /// Ask the OS for the pointer of the system. Answered by `CursorQueried`.
    QueryCursor,
    /// Ask for the hotspot of a pointer. Answered by `HotspotFound` or
    /// `HotspotFailed`.
    QueryHotspot { cursor: isize },
    /// Draw a pointer into the scratch buffer with its top left corner at
    /// `(x, y)`. Answered by `Drawn` or `DrawFailed`.
    DrawCursor { cursor: isize, x: i32, y: i32 },
    /// The request is over. `Ok` names the buffer that holds the frame to
    /// publish.
    Finish(Result<BufferRole>),
    /// A request is already running; it goes on, and nothing has changed.
    Busy,
    /// The event answers no pending action; nothing has changed.
    Rejected,
}

/// What the driver reports back.
#[derive(Debug)]
pub enum EngineEvent {
    /// The action that has no result was performed.
    Completed,
    SessionOpened,
    /// The session could not be created; `code` is the result code.
    SessionRefused { code: i32, detail: String },
    /// A frame was acquired and is now outstanding. `resource` describes its
    /// surface, if it came with one.
    Acquired { info: RawFrameInfo, resource: Option<TextureDesc> },
    /// No frame was acquired; `code` is the result code.
    AcquireFailed { code: i32, detail: String },
    /// The pointer shape was read.
    ShapeRead { buffer: Vec<u8>, shape: PointerShapeInfo },
    /// The pointer shape could not be read; `required` is the size the OS
    /// asks for.
    ShapeFailed { code: i32, required: u32, detail: String },
    BufferCreated,
    BufferFailed { detail: String },
    Locked,
    /// The other side did not give the key back in time.
    LockTimedOut { detail: String },
    /// The pointer of the system; `None` when the OS could not tell.
    CursorQueried { cursor: Option<RawCursor> },
    HotspotFound { x: i32, y: i32 },
    HotspotFailed { detail: String },
    Drawn,
    DrawFailed { detail: String },
}

/// Where the engine stands within a request.
#[derive(Debug)]
pub enum Phase {
    /// No request is running.
    Idle,
    /// The session is being created at the start of a request.
    Opening,
    /// Recovery: the lost session is being dropped.
    Closing(DDApiError),
    /// Recovery: the thread is being attached to the input desktop.
    Switching(DDApiError),
    /// Recovery: the session is being created again.
    Reopening(DDApiError),
    /// The outstanding frame is being given back before the next wait.
    Releasing,
    /// The engine waits for a frame.
    Polling,
    /// The pointer shape of the acquired frame is being read.
    ReadingShape { info: RawFrameInfo, retried: bool },
    /// The stable cache is being created.
    CreatingStable,
    /// The keyed mutex of the stable cache is being taken.
    LockingStable,
    /// The fresh surface is being copied into the stable cache.
    StoringFrame,
    /// The frame is being given back after it was copied.
    ReleasingFresh,
    CreatingScratch,
    CreatingShared,
    /// The keyed mutex of the published pointer frame is being taken.
    LockingShared,
    /// The stable cache is being copied into the scratch buffer.
    Staging,
    QueryingCursor,
    QueryingHotspot(RawCursor),
    Drawing,
    /// The scratch buffer is being copied into the published pointer frame.
    Presenting,
    /// What is still held is being given back; then the request ends with
    /// the result.
    Finishing(Result<BufferRole>),
}

/// The key under which a shared buffer is given back at the end of a request:
/// the consumer's for the buffer that is published, the producer's otherwise.
pub open spec fn handoff_key(result: Result<BufferRole>, role: BufferRole) -> u64 {
    if result == Ok::<BufferRole, DDApiError>(role) {
        CONSUMER_KEY
    } else {
        PRODUCER_KEY
    }
}

/// The capture engine. It owns no OS object: the driver holds them and keeps
/// them in step with the actions it is handed.
#[derive(Debug)]
pub struct InternalDesktopDuplicationApi {
    /// A duplication session exists.
    pub session: bool,
    pub options: DuplicationApiOptions,
    pub state: DuplicationState,
    /// The merged frame events since the consumer last took them.
    pub last_frame_info: Option<RawFrameInfo>,
    pub last_cursor_shape: Option<CursorShape>,
    pub phase: Phase,
    /// The time budget of the running request.
    pub timeout_ns: u128,
    /// The clock reading at which the running request began to wait.
    pub started_ns: u128,
}

impl InternalDesktopDuplicationApi {
    /// The engine before its first request: no session, nothing cached.
    pub open spec fn initial() -> Self {
        InternalDesktopDuplicationApi {
            session: false,
            options: DuplicationApiOptions { skip_cursor: false },
            state: DuplicationState::fresh(),
            last_frame_info: None,
            last_cursor_shape: None,
            phase: Phase::Idle,
            timeout_ns: 0,
            started_ns: 0,
        }
    }

    /// The time the running request has waited so far.
    pub open spec fn elapsed(self, now_ns: u128) -> int {
        if now_ns >= self.started_ns {
            now_ns - self.started_ns
        } else {
            0
        }
    }

    /// The rest of the budget in whole milliseconds, as the 32 bit value the
    /// OS takes: never more than what is left, and capped at `MAX_WAIT_MS`.
    /// What lies beyond the cap is waited for in the rounds that follow.
    pub open spec fn remaining_ms(self, now_ns: u128) -> u32 {
        let rest = self.timeout_ns - self.elapsed(now_ns);
        let whole = rest / (NANOS_PER_MILLI as int);
        if rest <= 0 {
            0
        } else if whole >= MAX_WAIT_MS {
            MAX_WAIT_MS
        } else {
            whole as u32
        }
    }

    /// The end of a request: what is still held is given back, one action
    /// after the other, and then the result is announced.
    pub open spec fn wound_up(self, result: Result<BufferRole>) -> (Self, EngineAction) {
        if self.state.frame_locked {
            (
                InternalDesktopDuplicationApi {
                    state: self.state.released(),
                    phase: Phase::Finishing(result),
                    ..self
                },
                EngineAction::ReleaseFrame,
            )
        } else if self.state.frame_key_held {
            (
                InternalDesktopDuplicationApi {
                    state: DuplicationState { frame_key_held: false, ..self.state },
                    phase: Phase::Finishing(result),
                    ..self
                },
                EngineAction::UnlockBuffer {
                    role: BufferRole::Stable,
                    key: handoff_key(result, BufferRole::Stable),
                },
            )
        } else if self.state.cursor_key_held {
            (
                InternalDesktopDuplicationApi {
                    state: DuplicationState { cursor_key_held: false, ..self.state },
                    phase: Phase::Finishing(result),
                    ..self
                },
                EngineAction::UnlockBuffer {
                    role: BufferRole::CursorShared,
                    key: handoff_key(result, BufferRole::CursorShared),
                },
            )
        } else {
            (InternalDesktopDuplicationApi { phase: Phase::Idle, ..self }, EngineAction::Finish(result))
        }
    }

    /// The head of the wait loop. While the budget lasts, the outstanding
    /// frame is given back and the next one is waited for; after that the
    /// request is settled with what is cached.
    pub open spec fn polled(self, now_ns: u128) -> (Self, EngineAction) {
        if self.elapsed(now_ns) < self.timeout_ns {
            if self.state.frame_locked {
                (
                    InternalDesktopDuplicationApi {
                        state: self.state.released(),
                        phase: Phase::Releasing,
                        ..self
                    },
                    EngineAction::ReleaseFrame,
                )
            } else {
                (
                    InternalDesktopDuplicationApi { phase: Phase::Polling, ..self },
                    EngineAction::AcquireNext { timeout_ms: self.remaining_ms(now_ns) },
                )
            }
        } else {
            self.settled()
        }
    }

    /// After the wait loop: without a stable cache there is nothing to
    /// deliver; with one, its keyed mutex is taken first.
    pub open spec fn settled(self) -> (Self, EngineAction) {
        if self.state.frame is None {
            self.wound_up(Err(DDApiError::AccessLost))
        } else {
            (
                InternalDesktopDuplicationApi { phase: Phase::LockingStable, ..self },
                EngineAction::LockBuffer {
                    role: BufferRole::Stable,
                    key: PRODUCER_KEY,
                    wait_ms: LOCK_WAIT_MS,
                },
            )
        }
    }

    /// After a frame event was taken in: a frame with a surface ends the
    /// wait, once the stable cache exists; one without lets it go on.
    pub open spec fn collected(self, now_ns: u128) -> (Self, EngineAction) {
        match self.state.last_resource {
            Some(desc) => {
                if self.state.frame is None {
                    (
                        InternalDesktopDuplicationApi { phase: Phase::CreatingStable, ..self },
                        EngineAction::CreateBuffer {
                            role: BufferRole::Stable,
                            request: TextureRequest::of(desc, BufferRole::Stable),
                        },
                    )
                } else {
                    self.settled()
                }
            },
            None => self.polled(now_ns),
        }
    }

    /// Once the stable cache is up to date, the outstanding frame goes back
    /// to the OS before anything else is done.
    pub open spec fn stored(self) -> (Self, EngineAction) {
        if self.state.frame_locked {
            (
                InternalDesktopDuplicationApi {
                    state: self.state.released(),
                    phase: Phase::ReleasingFresh,
                    ..self
                },
                EngineAction::ReleaseFrame,
            )
        } else {
            self.composed()
        }
    }

    /// The choice of what to publish: the stable cache itself when the
    /// pointer is skipped, the frame with the pointer drawn on it otherwise.
    pub open spec fn composed(self) -> (Self, EngineAction) {
        if self.options.skip_cursor {
            self.wound_up(Ok(BufferRole::Stable))
        } else {
            self.buffered()
        }
    }

    /// Makes sure that both pointer buffers exist, then takes the keyed mutex
    /// of the published one.
    pub open spec fn buffered(self) -> (Self, EngineAction) {
        match self.state.frame {
            None => self.wound_up(Err(DDApiError::AccessLost)),
            Some(desc) => {
                if self.state.cursor_frame is None {
                    (
                        InternalDesktopDuplicationApi { phase: Phase::CreatingScratch, ..self },
                        EngineAction::CreateBuffer {
                            role: BufferRole::CursorScratch,
                            request: TextureRequest::of(desc, BufferRole::CursorScratch),
                        },
                    )
                } else if self.state.shared_cursor_frame is None {
                    (
                        InternalDesktopDuplicationApi { phase: Phase::CreatingShared, ..self },
                        EngineAction::CreateBuffer {
                            role: BufferRole::CursorShared,
                            request: TextureRequest::of(desc, BufferRole::CursorShared),
                        },
                    )
                } else {
                    (
                        InternalDesktopDuplicationApi { phase: Phase::LockingShared, ..self },
                        EngineAction::LockBuffer {
                            role: BufferRole::CursorShared,
                            key: PRODUCER_KEY,
                            wait_ms: LOCK_WAIT_MS,
                        },
                    )
                }
            },
        }
    }

    /// The pointer is drawn with its hotspot on its screen position.
    pub open spec fn drawn(self, cursor: RawCursor) -> (Self, EngineAction) {
        (
            InternalDesktopDuplicationApi { phase: Phase::Drawing, ..self },
            EngineAction::DrawCursor {
                cursor: cursor.handle,
                x: cursor.x.wrapping_sub(self.state.hotspot_x),
                y: cursor.y.wrapping_sub(self.state.hotspot_y),
            },
        )
    }

    /// The scratch buffer goes into the published pointer frame.
    pub open spec fn presented(self) -> (Self, EngineAction) {
        (
            InternalDesktopDuplicationApi { phase: Phase::Presenting, ..self },
            EngineAction::CopyFrame {
                from: FrameSource::Buffer(BufferRole::CursorScratch),
                to: BufferRole::CursorShared,
            },
        )
    }

    /// Recovery begins: the session and all that belonged to it is given up.
    pub open spec fn recovering(self, error: DDApiError) -> (Self, EngineAction) {
        (
            InternalDesktopDuplicationApi {
                session: false,
                state: DuplicationState::fresh(),
                phase: Phase::Closing(error),
                ..self
            },
            EngineAction::CloseSession,
        )
    }

    /// The start of a request with a time budget, at clock reading `now_ns`.
    pub open spec fn began(self, timeout_ns: u128, now_ns: u128) -> (Self, EngineAction) {
        if !(self.phase is Idle) {
            (self, EngineAction::Busy)
        } else if !self.session {
            (
                InternalDesktopDuplicationApi {
                    state: DuplicationState::fresh(),
                    phase: Phase::Opening,
                    timeout_ns,
                    started_ns: now_ns,
                    ..self
                },
                EngineAction::OpenSession,
            )
        } else {
            (InternalDesktopDuplicationApi { timeout_ns, started_ns: now_ns, ..self }).polled(now_ns)
        }
    }

    /// The transition of the engine: the state and the next action that
    /// follow from an event reported at clock reading `now_ns`.
    pub open spec fn stepped(self, event: EngineEvent, now_ns: u128) -> (Self, EngineAction) {
        match (self.phase, event) {
            (Phase::Opening, EngineEvent::SessionOpened) => (InternalDesktopDuplicationApi {
                session: true,
                started_ns: now_ns,
                ..self
            }).polled(now_ns),
            (Phase::Opening, EngineEvent::SessionRefused { code, detail }) => (
                InternalDesktopDuplicationApi {
                    phase: Phase::Finishing(Err(session_error_of(code, detail))),
                    ..self
                },
                EngineAction::SwitchDesktop,
            ),
            (Phase::Closing(error), EngineEvent::Completed) => (
                InternalDesktopDuplicationApi { phase: Phase::Switching(error), ..self },
                EngineAction::SwitchDesktop,
            ),
            (Phase::Switching(error), EngineEvent::Completed) => (
                InternalDesktopDuplicationApi { phase: Phase::Reopening(error), ..self },
                EngineAction::OpenSession,
            ),
            (Phase::Reopening(error), EngineEvent::SessionOpened) => (InternalDesktopDuplicationApi {
                session: true,
                ..self
            }).wound_up(Err(error)),
            (Phase::Reopening(error), EngineEvent::SessionRefused { code, detail }) => self.wound_up(
                Err(error),
            ),
            (Phase::Releasing, EngineEvent::Completed) => self.polled(now_ns),
            (Phase::Polling, EngineEvent::Acquired { info, resource }) => {
                let locked = InternalDesktopDuplicationApi {
                    state: DuplicationState {
                        frame_locked: true,
                        last_resource: resource,
                        ..self.state
                    },
                    ..self
                };
                if info.pointer_shape_buffer_size != 0 {
                    (
                        InternalDesktopDuplicationApi {
                            phase: Phase::ReadingShape { info, retried: false },
                            ..locked
                        },
                        EngineAction::ReadPointerShape { capacity: info.pointer_shape_buffer_size },
                    )
                } else {
                    (InternalDesktopDuplicationApi {
                        last_frame_info: Some(remembered(self.last_frame_info, info)),
                        ..locked
                    }).collected(now_ns)
                }
            },
            (Phase::Polling, EngineEvent::AcquireFailed { code, detail }) => {
                match AcquireFailure::of(code) {
                    AcquireFailure::AccessLost => self.recovering(DDApiError::AccessLost),
                    AcquireFailure::AccessDenied => self.recovering(DDApiError::AccessDenied),
                    AcquireFailure::InvalidCall => self.recovering(DDApiError::AccessLost),
                    AcquireFailure::WaitTimeout => self.polled(now_ns),
                    AcquireFailure::Other => self.wound_up(Err(DDApiError::Unexpected(detail))),
                }
            },
            (Phase::ReadingShape { info, retried }, EngineEvent::ShapeRead { buffer, shape }) => {
                (InternalDesktopDuplicationApi {
                    last_cursor_shape: Some(
                        CursorShape {
                            buffer,
                            width: shape.width,
                            height: shape.height,
                            pitch: shape.pitch,
                            kind: CursorKind::of_tag(shape.kind),
                            hotspot: shape.hotspot,
                        },
                    ),
                    last_frame_info: Some(remembered(self.last_frame_info, info)),
                    ..self
                }).collected(now_ns)
            },
            (
                Phase::ReadingShape { info, retried },
                EngineEvent::ShapeFailed { code, required, detail },
            ) => {
                if code == DXGI_ERROR_MORE_DATA && !retried {
                    (
                        InternalDesktopDuplicationApi {
                            phase: Phase::ReadingShape { info, retried: true },
                            ..self
                        },
                        EngineAction::ReadPointerShape { capacity: required },
                    )
                } else {
                    self.wound_up(Err(DDApiError::Unexpected(detail)))
                }
            },
            (Phase::CreatingStable, EngineEvent::BufferCreated) => (InternalDesktopDuplicationApi {
                state: DuplicationState { frame: self.state.last_resource, ..self.state },
                ..self
            }).settled(),
            (Phase::CreatingStable, EngineEvent::BufferFailed { detail }) => self.wound_up(
                Err(DDApiError::Unexpected(detail)),
            ),
            (Phase::LockingStable, EngineEvent::Locked) => {
                let held = InternalDesktopDuplicationApi {
                    state: DuplicationState { frame_key_held: true, ..self.state },
                    ..self
                };
                if self.state.last_resource is Some {
                    (
                        InternalDesktopDuplicationApi { phase: Phase::StoringFrame, ..held },
                        EngineAction::CopyFrame {
                            from: FrameSource::Fresh,
                            to: BufferRole::Stable,
                        },
                    )
                } else {
                    held.stored()
                }
            },
            (Phase::LockingStable, EngineEvent::LockTimedOut { detail }) => self.wound_up(
                Err(DDApiError::Unexpected(detail)),
            ),
            (Phase::StoringFrame, EngineEvent::Completed) => self.stored(),
            (Phase::ReleasingFresh, EngineEvent::Completed) => self.composed(),
            (Phase::CreatingScratch, EngineEvent::BufferCreated) => (InternalDesktopDuplicationApi {
                state: DuplicationState { cursor_frame: self.state.frame, ..self.state },
                ..self
            }).buffered(),
            (Phase::CreatingScratch, EngineEvent::BufferFailed { detail }) => self.wound_up(
                Err(DDApiError::Unexpected(detail)),
            ),
            (Phase::CreatingShared, EngineEvent::BufferCreated) => (InternalDesktopDuplicationApi {
                state: DuplicationState { shared_cursor_frame: self.state.frame, ..self.state },
                ..self
            }).buffered(),
            (Phase::CreatingShared, EngineEvent::BufferFailed { detail }) => self.wound_up(
                Err(DDApiError::Unexpected(detail)),
            ),
            (Phase::LockingShared, EngineEvent::Locked) => (
                InternalDesktopDuplicationApi {
                    state: DuplicationState { cursor_key_held: true, ..self.state },
                    phase: Phase::Staging,
                    ..self
                },
                EngineAction::CopyFrame {
                    from: FrameSource::Buffer(BufferRole::Stable),
                    to: BufferRole::CursorScratch,
                },
            ),
            (Phase::LockingShared, EngineEvent::LockTimedOut { detail }) => self.wound_up(
                Err(DDApiError::Unexpected(detail)),
            ),
            (Phase::Staging, EngineEvent::Completed) => (
                InternalDesktopDuplicationApi { phase: Phase::QueryingCursor, ..self },
                EngineAction::QueryCursor,
            ),
            (Phase::QueryingCursor, EngineEvent::CursorQueried { cursor }) => {
                match cursor {
                    None => self.presented(),
                    Some(c) => {
                        if !c.showing() {
                            self.presented()
                        } else if self.state.cursor == Some(c.handle) {
                            self.drawn(c)
                        } else {
                            (
                                InternalDesktopDuplicationApi {
                                    phase: Phase::QueryingHotspot(c),
                                    ..self
                                },
                                EngineAction::QueryHotspot { cursor: c.handle },
                            )
                        }
                    },
                }
            },
            (Phase::QueryingHotspot(c), EngineEvent::HotspotFound { x, y }) => (InternalDesktopDuplicationApi {
                state: DuplicationState {
                    cursor: Some(c.handle),
                    hotspot_x: x,
                    hotspot_y: y,
                    ..self.state
                },
                ..self
            }).drawn(c),
            (Phase::QueryingHotspot(c), EngineEvent::HotspotFailed { detail }) => self.wound_up(
                Err(DDApiError::Unexpected(detail)),
            ),
            (Phase::Drawing, EngineEvent::Drawn) => self.presented(),
            (Phase::Drawing, EngineEvent::DrawFailed { detail }) => self.wound_up(
                Err(DDApiError::Unexpected(detail)),
            ),
            (Phase::Presenting, EngineEvent::Completed) => self.wound_up(
                Ok(BufferRole::CursorShared),
            ),
            (Phase::Finishing(result), EngineEvent::Completed) => self.wound_up(result),
            _ => (self, EngineAction::Rejected),
        }
    }
}


impl InternalDesktopDuplicationApi {
    /// An engine without a session and with nothing cached. The session is
    /// created by the first request.
    pub fn new() -> (engine: Self)
        ensures
            engine == Self::initial(),
            engine.wf(),
    {
        InternalDesktopDuplicationApi {
            session: false,
            options: DuplicationApiOptions { skip_cursor: false },
            state: DuplicationState::default(),
            last_frame_info: None,
            last_cursor_shape: None,
            phase: Phase::Idle,
            timeout_ns: 0,
            started_ns: 0,
        }
    }

    fn remaining(&self, now_ns: u128) -> (ms: u32)
        requires
            self.elapsed(now_ns) < self.timeout_ns,
        ensures
            ms == self.remaining_ms(now_ns),
    {
        let elapsed: u128 = if now_ns >= self.started_ns {
            now_ns - self.started_ns
        } else {
            0
        };
        let rest: u128 = self.timeout_ns - elapsed;
        let whole: u128 = rest / NANOS_PER_MILLI;
        if whole >= MAX_WAIT_MS as u128 {
            MAX_WAIT_MS
        } else {
            whole as u32
        }
    }

    fn waited_out(&self, now_ns: u128) -> (over: bool)
        ensures
            over == !(self.elapsed(now_ns) < self.timeout_ns),
    {
        let elapsed: u128 = if now_ns >= self.started_ns {
            now_ns - self.started_ns
        } else {
            0
        };
        elapsed >= self.timeout_ns
    }

    fn wind_up(self, result: Result<BufferRole>) -> (r: (Self, EngineAction))
        ensures
            r == self.wound_up(result),
    {
        let mut me = self;
        if me.state.frame_locked {
            me.state.release();
            me.phase = Phase::Finishing(result);
            (me, EngineAction::ReleaseFrame)
        } else if me.state.frame_key_held {
            let key: u64 = match &result {
                Ok(BufferRole::Stable) => CONSUMER_KEY,
                _ => PRODUCER_KEY,
            };
            me.state.frame_key_held = false;
            me.phase = Phase::Finishing(result);
            (me, EngineAction::UnlockBuffer { role: BufferRole::Stable, key })
        } else if me.state.cursor_key_held {
            let key: u64 = match &result {
                Ok(BufferRole::CursorShared) => CONSUMER_KEY,
                _ => PRODUCER_KEY,
            };
            me.state.cursor_key_held = false;
            me.phase = Phase::Finishing(result);
            (me, EngineAction::UnlockBuffer { role: BufferRole::CursorShared, key })
        } else {
            me.phase = Phase::Idle;
            (me, EngineAction::Finish(result))
        }
    }

    fn settle(self) -> (r: (Self, EngineAction))
        ensures
            r == self.settled(),
    {
        let mut me = self;
        if me.state.frame.is_none() {
            me.wind_up(Err(DDApiError::AccessLost))
        } else {
            me.phase = Phase::LockingStable;
            (
                me,
                EngineAction::LockBuffer {
                    role: BufferRole::Stable,
                    key: PRODUCER_KEY,
                    wait_ms: LOCK_WAIT_MS,
                },
            )
        }
    }

    fn poll(self, now_ns: u128) -> (r: (Self, EngineAction))
        ensures
            r == self.polled(now_ns),
    {
        let mut me = self;
        if me.waited_out(now_ns) {
            me.settle()
        } else if me.state.frame_locked {
            me.state.release();
            me.phase = Phase::Releasing;
            (me, EngineAction::ReleaseFrame)
        } else {
            let timeout_ms = me.remaining(now_ns);
            me.phase = Phase::Polling;
            (me, EngineAction::AcquireNext { timeout_ms })
        }
    }

    fn ensure_cache_frame(self, desc: TextureDesc) -> (r: (Self, EngineAction))
        requires
            self.state.last_resource == Some(desc),
        ensures
            r == self.collected(0),
    {
        let mut me = self;
        if me.state.frame.is_none() {
            me.phase = Phase::CreatingStable;
            (
                me,
                EngineAction::CreateBuffer {
                    role: BufferRole::Stable,
                    request: TextureRequest::create_texture(desc, BufferRole::Stable),
                },
            )
        } else {
            me.settle()
        }
    }

    fn collect(self, now_ns: u128) -> (r: (Self, EngineAction))
        ensures
            r == self.collected(now_ns),
    {
        match self.state.last_resource {
            Some(desc) => self.ensure_cache_frame(desc),
            None => self.poll(now_ns),
        }
    }

    fn ensure_cache_cursor_frame(self) -> (r: (Self, EngineAction))
        ensures
            r == self.buffered(),
    {
        let mut me = self;
        match me.state.frame {
            None => me.wind_up(Err(DDApiError::AccessLost)),
            Some(desc) => {
                if me.state.cursor_frame.is_none() {
                    me.phase = Phase::CreatingScratch;
                    (
                        me,
                        EngineAction::CreateBuffer {
                            role: BufferRole::CursorScratch,
                            request: TextureRequest::create_texture(
                                desc,
                                BufferRole::CursorScratch,
                            ),
                        },
                    )
                } else if me.state.shared_cursor_frame.is_none() {
                    me.phase = Phase::CreatingShared;
                    (
                        me,
                        EngineAction::CreateBuffer {
                            role: BufferRole::CursorShared,
                            request: TextureRequest::create_texture(
                                desc,
                                BufferRole::CursorShared,
                            ),
                        },
                    )
                } else {
                    me.phase = Phase::LockingShared;
                    (
                        me,
                        EngineAction::LockBuffer {
                            role: BufferRole::CursorShared,
                            key: PRODUCER_KEY,
                            wait_ms: LOCK_WAIT_MS,
                        },
                    )
                }
            },
        }
    }

    fn compose(self) -> (r: (Self, EngineAction))
        ensures
            r == self.composed(),
    {
        if self.options.skip_cursor {
            self.wind_up(Ok(BufferRole::Stable))
        } else {
            self.ensure_cache_cursor_frame()
        }
    }

    fn store(self) -> (r: (Self, EngineAction))
        ensures
            r == self.stored(),
    {
        let mut me = self;
        if me.state.frame_locked {
            me.state.release();
            me.phase = Phase::ReleasingFresh;
            (me, EngineAction::ReleaseFrame)
        } else {
            me.compose()
        }
    }

    fn draw_cursor(self, cursor: RawCursor) -> (r: (Self, EngineAction))
        ensures
            r == self.drawn(cursor),
    {
        let mut me = self;
        let (x, y) = cursor.draw_origin(me.state.hotspot_x, me.state.hotspot_y);
        me.phase = Phase::Drawing;
        (me, EngineAction::DrawCursor { cursor: cursor.handle, x, y })
    }

    fn present(self) -> (r: (Self, EngineAction))
        ensures
            r == self.presented(),
    {
        let mut me = self;
        me.phase = Phase::Presenting;
        (
            me,
            EngineAction::CopyFrame {
                from: FrameSource::Buffer(BufferRole::CursorScratch),
                to: BufferRole::CursorShared,
            },
        )
    }

    fn reacquire_dup(self, error: DDApiError) -> (r: (Self, EngineAction))
        ensures
            r == self.recovering(error),
    {
        let mut me = self;
        me.state.reset();
        me.session = false;
        me.phase = Phase::Closing(error);
        (me, EngineAction::CloseSession)
    }

    fn begin(self, timeout_ns: u128, now_ns: u128) -> (r: (Self, EngineAction))
        ensures
            r == self.began(timeout_ns, now_ns),
    {
        let mut me = self;
        match me.phase {
            Phase::Idle => {
                me.timeout_ns = timeout_ns;
                me.started_ns = now_ns;
                if !me.session {
                    me.state.reset();
                    me.phase = Phase::Opening;
                    (me, EngineAction::OpenSession)
                } else {
                    me.poll(now_ns)
                }
            },
            _ => (me, EngineAction::Busy),
        }
    }

    fn on_acquired(self, info: RawFrameInfo, resource: Option<TextureDesc>, now_ns: u128) -> (r: (
        Self,
        EngineAction,
    ))
        requires
            self.phase is Polling,
        ensures
            r == self.stepped(EngineEvent::Acquired { info, resource }, now_ns),
    {
        let mut me = self;
        me.state.frame_locked = true;
        me.state.last_resource = resource;
        if info.pointer_shape_buffer_size != 0 {
            me.phase = Phase::ReadingShape { info, retried: false };
            (me, EngineAction::ReadPointerShape { capacity: info.pointer_shape_buffer_size })
        } else {
            me.last_frame_info = Some(merge_into(&me.last_frame_info, &info));
            me.collect(now_ns)
        }
    }

    fn on_acquire_failed(self, code: i32, detail: String, now_ns: u128) -> (r: (
        Self,
        EngineAction,
    ))
        requires
            self.phase is Polling,
        ensures
            r == self.stepped(EngineEvent::AcquireFailed { code, detail }, now_ns),
    {
        match AcquireFailure::classify(code) {
            AcquireFailure::AccessLost => self.reacquire_dup(DDApiError::AccessLost),
            AcquireFailure::AccessDenied => self.reacquire_dup(DDApiError::AccessDenied),
            AcquireFailure::InvalidCall => self.reacquire_dup(DDApiError::AccessLost),
            AcquireFailure::WaitTimeout => self.poll(now_ns),
            AcquireFailure::Other => self.wind_up(Err(DDApiError::Unexpected(detail))),
        }
    }

    fn on_cursor(self, cursor: Option<RawCursor>) -> (r: (Self, EngineAction))
        requires
            self.phase is QueryingCursor,
        ensures
            r == self.stepped(EngineEvent::CursorQueried { cursor }, 0),
    {
        let mut me = self;
        match cursor {
            None => me.present(),
            Some(c) => {
                if !c.is_showing() {
                    me.present()
                } else {
                    let known = match me.state.cursor {
                        Some(h) => h == c.handle,
                        None => false,
                    };
                    if known {
                        me.draw_cursor(c)
                    } else {
                        me.phase = Phase::QueryingHotspot(c);
                        (me, EngineAction::QueryHotspot { cursor: c.handle })
                    }
                }
            },
        }
    }

    fn step(self, event: EngineEvent, now_ns: u128) -> (r: (Self, EngineAction))
        ensures
            r == self.stepped(event, now_ns),
    {
        let mut me = self;
        let mut phase = Phase::Idle;
        core::mem::swap(&mut me.phase, &mut phase);
        match (phase, event) {
            (Phase::Opening, EngineEvent::SessionOpened) => {
                me.session = true;
                me.started_ns = now_ns;
                me.poll(now_ns)
            },
            (Phase::Opening, EngineEvent::SessionRefused { code, detail }) => {
                me.phase = Phase::Finishing(Err(session_error(code, detail)));
                (me, EngineAction::SwitchDesktop)
            },
            (Phase::Closing(error), EngineEvent::Completed) => {
                me.phase = Phase::Switching(error);
                (me, EngineAction::SwitchDesktop)
            },
            (Phase::Switching(error), EngineEvent::Completed) => {
                me.phase = Phase::Reopening(error);
                (me, EngineAction::OpenSession)
            },
            (Phase::Reopening(error), EngineEvent::SessionOpened) => {
                me.session = true;
                me.wind_up(Err(error))
            },
            (Phase::Reopening(error), EngineEvent::SessionRefused { code: _, detail: _ }) => {
                me.wind_up(Err(error))
            },
            (Phase::Releasing, EngineEvent::Completed) => me.poll(now_ns),
            (Phase::Polling, EngineEvent::Acquired { info, resource }) => {
                me.phase = Phase::Polling;
                me.on_acquired(info, resource, now_ns)
            },
            (Phase::Polling, EngineEvent::AcquireFailed { code, detail }) => {
                me.phase = Phase::Polling;
                me.on_acquire_failed(code, detail, now_ns)
            },
            (Phase::ReadingShape { info, retried: _ }, EngineEvent::ShapeRead { buffer, shape }) => {
                me.last_cursor_shape = Some(CursorShape::from_raw(buffer, shape));
                me.last_frame_info = Some(merge_into(&me.last_frame_info, &info));
                me.collect(now_ns)
            },
            (
                Phase::ReadingShape { info, retried },
                EngineEvent::ShapeFailed { code, required, detail },
            ) => {
                if code == DXGI_ERROR_MORE_DATA && !retried {
                    me.phase = Phase::ReadingShape { info, retried: true };
                    (me, EngineAction::ReadPointerShape { capacity: required })
                } else {
                    me.wind_up(Err(DDApiError::Unexpected(detail)))
                }
            },
            (Phase::CreatingStable, EngineEvent::BufferCreated) => {
                me.state.frame = me.state.last_resource;
                me.settle()
            },
            (Phase::CreatingStable, EngineEvent::BufferFailed { detail }) => me.wind_up(
                Err(DDApiError::Unexpected(detail)),
            ),
            (Phase::LockingStable, EngineEvent::Locked) => {
                me.state.frame_key_held = true;
                if me.state.last_resource.is_some() {
                    me.phase = Phase::StoringFrame;
                    (
                        me,
                        EngineAction::CopyFrame {
                            from: FrameSource::Fresh,
                            to: BufferRole::Stable,
                        },
                    )
                } else {
                    me.store()
                }
            },
            (Phase::LockingStable, EngineEvent::LockTimedOut { detail }) => me.wind_up(
                Err(DDApiError::Unexpected(detail)),
            ),
            (Phase::StoringFrame, EngineEvent::Completed) => me.store(),
            (Phase::ReleasingFresh, EngineEvent::Completed) => me.compose(),
            (Phase::CreatingScratch, EngineEvent::BufferCreated) => {
                me.state.cursor_frame = me.state.frame;
                me.ensure_cache_cursor_frame()
            },
            (Phase::CreatingScratch, EngineEvent::BufferFailed { detail }) => me.wind_up(
                Err(DDApiError::Unexpected(detail)),
            ),
            (Phase::CreatingShared, EngineEvent::BufferCreated) => {
                me.state.shared_cursor_frame = me.state.frame;
                me.ensure_cache_cursor_frame()
            },
            (Phase::CreatingShared, EngineEvent::BufferFailed { detail }) => me.wind_up(
                Err(DDApiError::Unexpected(detail)),
            ),
            (Phase::LockingShared, EngineEvent::Locked) => {
                me.state.cursor_key_held = true;
                me.phase = Phase::Staging;
                (
                    me,
                    EngineAction::CopyFrame {
                        from: FrameSource::Buffer(BufferRole::Stable),
                        to: BufferRole::CursorScratch,
                    },
                )
            },
            (Phase::LockingShared, EngineEvent::LockTimedOut { detail }) => me.wind_up(
                Err(DDApiError::Unexpected(detail)),
            ),
            (Phase::Staging, EngineEvent::Completed) => {
                me.phase = Phase::QueryingCursor;
                (me, EngineAction::QueryCursor)
            },
            (Phase::QueryingCursor, EngineEvent::CursorQueried { cursor }) => {
                me.phase = Phase::QueryingCursor;
                me.on_cursor(cursor)
            },
            (Phase::QueryingHotspot(c), EngineEvent::HotspotFound { x, y }) => {
                me.state.cursor = Some(c.handle);
                me.state.hotspot_x = x;
                me.state.hotspot_y = y;
                me.draw_cursor(c)
            },
            (Phase::QueryingHotspot(_), EngineEvent::HotspotFailed { detail }) => me.wind_up(
                Err(DDApiError::Unexpected(detail)),
            ),
            (Phase::Drawing, EngineEvent::Drawn) => me.present(),
            (Phase::Drawing, EngineEvent::DrawFailed { detail }) => me.wind_up(
                Err(DDApiError::Unexpected(detail)),
            ),
            (Phase::Presenting, EngineEvent::Completed) => me.wind_up(Ok(BufferRole::CursorShared)),
            (Phase::Finishing(result), EngineEvent::Completed) => me.wind_up(result),
            (phase, _) => {
                me.phase = phase;
                (me, EngineAction::Rejected)
            },
        }
    }
}

impl InternalDesktopDuplicationApi {
    /// Starts a request: the driver is to deliver the next frame within
    /// `timeout_ns` nanoseconds, counted from the clock reading `now_ns`.
    /// Without a session the first action creates one. While another request
    /// is running the answer is `Busy` and nothing changes.
    pub fn acquire_next_frame(&mut self, timeout_ns: u128, now_ns: u128) -> (action: EngineAction)
        ensures
            (*final(self), action) == old(self).began(timeout_ns, now_ns),
            action is Finish ==> final(self).is_at_rest(),
            action is AcquireNext ==> !final(self).state.frame_locked,
            !(old(self).phase is Idle) ==> action is Busy && *final(self) == *old(self),
            old(self).wf() ==> final(self).wf() && old(self).permits(*final(self), action),
    {
        let mut taken = InternalDesktopDuplicationApi::new();
        core::mem::swap(self, &mut taken);
        proof {
            lemma_began_at_rest(taken, timeout_ns, now_ns);
            if taken.wf() {
                lemma_began_wf(taken, timeout_ns, now_ns);
            }
        }
        let (next, action) = taken.begin(timeout_ns, now_ns);
        *self = next;
        action
    }

    /// Starts a request without a time budget: nothing is waited for, and the
    /// request is settled with what is cached.
    pub fn acquire_next_frame_now(&mut self, now_ns: u128) -> (action: EngineAction)
        ensures
            (*final(self), action) == old(self).began(0, now_ns),
            !(action is AcquireNext),
    {
        self.acquire_next_frame(0, now_ns)
    }

    /// Takes in what the driver reports of the action it was handed last and
    /// says what to do next. `now_ns` is the clock reading at the time of the
    /// report. An event that does not answer the pending action is rejected
    /// and changes nothing.
    pub fn resume(&mut self, event: EngineEvent, now_ns: u128) -> (action: EngineAction)
        ensures
            (*final(self), action) == old(self).stepped(event, now_ns),
            action is Finish ==> final(self).is_at_rest(),
            action is AcquireNext ==> !old(self).state.frame_locked,
            action is AcquireNext ==> !final(self).state.frame_locked,
            action is Rejected ==> *final(self) == *old(self),
            old(self).wf() ==> final(self).wf() && old(self).permits(*final(self), action),
    {
        let mut taken = InternalDesktopDuplicationApi::new();
        core::mem::swap(self, &mut taken);
        proof {
            lemma_stepped_at_rest(taken, event, now_ns);
            if taken.wf() {
                lemma_stepped_wf(taken, event, now_ns);
            }
        }
        let (next, action) = taken.step(event, now_ns);
        *self = next;
        action
    }

    /// Hands out the metadata merged since the last call and forgets it. With
    /// nothing merged since, the empty snapshot is returned.
    pub fn get_last_frame_info(&mut self) -> (info: FrameInfo)
        ensures
            info == match old(self).last_frame_info {
                Some(raw) => FrameInfo::of(raw),
                None => FrameInfo::empty(),
            },
            final(self).last_frame_info is None,
            *final(self) == (InternalDesktopDuplicationApi { last_frame_info: None, ..*old(self) }),
            old(self).wf() ==> final(self).wf(),
    {
        let info = match &self.last_frame_info {
            Some(raw) => FrameInfo::from_raw(raw),
            None => FrameInfo::default(),
        };
        self.last_frame_info = None;
        info
    }

    /// Copies the latest pointer shape into `shape`. Before the first shape
    /// has arrived this is refused with `BadParam`, and `shape` is left as it
    /// was.
    pub fn get_cursor_shape(&self, shape: &mut CursorShape) -> (r: Result<()>)
        ensures
            self.last_cursor_shape is Some <==> r is Ok,
            r is Ok ==> final(shape)@ == self.last_cursor_shape->0@,
            r is Err ==> *final(shape) == *old(shape),
            r matches Err(e) ==> e matches DDApiError::BadParam(detail) && detail@
                == "requested before frame!!!"@,
    {
        match &self.last_cursor_shape {
            Some(latest) => {
                *shape = latest.clone();
                Ok(())
            },
            None => Err(DDApiError::BadParam("requested before frame!!!".to_owned())),
        }
    }

    /// Replaces the options. The request that is started next works with
    /// them, and so does a running one from its next decision on.
    pub fn configure(&mut self, opt: DuplicationApiOptions)
        ensures
            *final(self) == (InternalDesktopDuplicationApi { options: opt, ..*old(self) }),
            old(self).wf() ==> final(self).wf(),
    {
        self.options = opt;
    }

    /// Nothing is held and no request is running.
    pub open spec fn is_at_rest(self) -> bool {
        &&& self.phase is Idle
        &&& !self.state.frame_locked
        &&& !self.state.frame_key_held
        &&& !self.state.cursor_key_held
    }
}

impl Phase {
    /// The phases after the wait loop, in which the stable cache is worked on.
    pub open spec fn needs_stable(self) -> bool {
        self is LockingStable || self is StoringFrame || self is ReleasingFresh
            || self is CreatingScratch || self is CreatingShared || self.needs_pointer_buffers()
    }

    /// The phases in which the pointer is put onto the frame.
    pub open spec fn needs_pointer_buffers(self) -> bool {
        self is LockingShared || self is Staging || self is QueryingCursor
            || self is QueryingHotspot || self is Drawing || self is Presenting
    }

    /// The phases of a recovery, each with the error that set it off.
    pub open spec fn recovers(self) -> Option<DDApiError> {
        match self {
            Phase::Closing(e) => Some(e),
            Phase::Switching(e) => Some(e),
            Phase::Reopening(e) => Some(e),
            _ => None,
        }
    }

    /// Whether the engine holds the keyed mutex of the stable cache in this
    /// phase; `None` where both can be.
    pub open spec fn holds_stable_key(self) -> Option<bool> {
        if self is Finishing {
            None
        } else {
            Some(
                self is StoringFrame || self is ReleasingFresh || self is CreatingScratch
                    || self is CreatingShared || self.needs_pointer_buffers(),
            )
        }
    }

    /// Whether the engine holds the keyed mutex of the published pointer
    /// frame in this phase; `None` where both can be.
    pub open spec fn holds_pointer_key(self) -> Option<bool> {
        if self is Finishing {
            None
        } else {
            Some(self.needs_pointer_buffers() && !(self is LockingShared))
        }
    }

    /// Whether a frame of the OS is outstanding in this phase; `None` where
    /// both can be.
    pub open spec fn holds_frame(self) -> Option<bool> {
        if self is ReadingShape || self is StoringFrame {
            Some(true)
        } else if self is CreatingStable || self is LockingStable || self is Finishing {
            None
        } else {
            Some(false)
        }
    }

    /// The phases that can do without a session.
    pub open spec fn works_without_session(self) -> bool {
        self is Idle || self is Opening || self.recovers() is Some || (self matches Phase::Finishing(
            r,
        ) && r is Err)
    }
}

impl InternalDesktopDuplicationApi {
    /// What holds of every engine that was made by `new` and driven through
    /// `acquire_next_frame` and `resume`.
    pub open spec fn wf(self) -> bool {
        &&& self.phase is Idle ==> self.is_at_rest()
        &&& self.state.frame_locked ==> self.session
        &&& self.state.last_resource is Some ==> self.state.frame_locked
        &&& self.state.frame_key_held ==> self.state.frame is Some
        &&& self.state.cursor_key_held ==> self.state.shared_cursor_frame is Some
        &&& self.state.cursor_frame is Some ==> self.state.cursor_frame == self.state.frame
        &&& self.state.shared_cursor_frame is Some ==> self.state.shared_cursor_frame
            == self.state.frame
        &&& !self.session ==> self.state == DuplicationState::fresh()
            && self.phase.works_without_session()
        &&& self.phase.recovers() matches Some(e) ==> e.is_recoverable() && !self.session
        &&& self.phase is Opening ==> !self.session
        &&& self.phase.holds_stable_key() is Some ==> self.phase.holds_stable_key() == Some(
            self.state.frame_key_held,
        )
        &&& self.phase.holds_pointer_key() is Some ==> self.phase.holds_pointer_key() == Some(
            self.state.cursor_key_held,
        )
        &&& self.phase.holds_frame() is Some ==> self.phase.holds_frame() == Some(
            self.state.frame_locked,
        )
        &&& self.phase is CreatingStable ==> self.state.last_resource is Some && self.state.frame is None
        &&& self.phase is StoringFrame ==> self.state.last_resource is Some
        &&& self.phase is CreatingScratch ==> self.state.cursor_frame is None
        &&& self.phase is CreatingShared ==> self.state.cursor_frame is Some
            && self.state.shared_cursor_frame is None
        &&& self.phase.needs_stable() ==> self.state.frame is Some
        &&& self.phase.needs_pointer_buffers() ==> self.state.cursor_frame is Some
            && self.state.shared_cursor_frame is Some
        &&& self.phase matches Phase::Finishing(Ok(role)) ==> role.is_shared() && self.state.buffer(
            role,
        ) is Some
    }

    /// What an action may rely on when the driver performs it.
    pub open spec fn permits(self, next: Self, action: EngineAction) -> bool {
        match action {
            EngineAction::OpenSession => !next.session && next.state == DuplicationState::fresh(),
            EngineAction::CloseSession => !next.session && next.state == DuplicationState::fresh(),
            EngineAction::ReleaseFrame => !next.state.frame_locked && next.session,
            EngineAction::AcquireNext { timeout_ms } => next.session && !self.state.frame_locked
                && !next.state.frame_locked,
            EngineAction::ReadPointerShape { capacity } => next.state.frame_locked,
            EngineAction::CreateBuffer { role, request } => next.state.buffer(role) is None && (
            match next.state.buffer(BufferRole::Stable) {
                Some(d) => request == TextureRequest::of(d, role),
                None => role == BufferRole::Stable && (match next.state.last_resource {
                    Some(d) => request == TextureRequest::of(d, role),
                    None => false,
                }),
            }),
            EngineAction::LockBuffer { role, key, wait_ms } => role.is_shared() && next.state.buffer(
                role,
            ) is Some && key == PRODUCER_KEY && !next.holds(role),
            EngineAction::UnlockBuffer { role, key } => role.is_shared() && !next.holds(role)
                && next.state.buffer(role) is Some,
            EngineAction::CopyFrame { from, to } => next.state.buffer(to) is Some && (to.is_shared()
                ==> next.holds(to)) && (match from {
                FrameSource::Fresh => next.state.last_resource is Some && next.state.frame_locked,
                FrameSource::Buffer(b) => next.state.buffer(b) is Some && (b.is_shared()
                    ==> next.holds(b)),
            }),
            EngineAction::DrawCursor { cursor, x, y } => next.state.cursor_frame is Some
                && next.state.cursor == Some(cursor),
            EngineAction::Finish(result) => next.is_at_rest() && (result matches Ok(role)
                ==> role.is_shared() && next.state.buffer(role) is Some),
            _ => true,
        }
    }

    /// Whether the engine holds the keyed mutex of a buffer.
    pub open spec fn holds(self, role: BufferRole) -> bool {
        match role {
            BufferRole::Stable => self.state.frame_key_held,
            BufferRole::CursorShared => self.state.cursor_key_held,
            BufferRole::CursorScratch => false,
        }
    }
}

/// A new engine is well formed.
pub proof fn lemma_initial_wf()
    ensures
        InternalDesktopDuplicationApi::initial().wf(),
{
}

/// Starting a request keeps the engine well formed, and the action handed
/// out can be performed: what it names exists, and what it gives back is held.
pub proof fn lemma_began_wf(engine: InternalDesktopDuplicationApi, timeout_ns: u128, now_ns: u128)
    requires
        engine.wf(),
    ensures
        engine.began(timeout_ns, now_ns).0.wf(),
        engine.permits(engine.began(timeout_ns, now_ns).0, engine.began(timeout_ns, now_ns).1),
{
}

/// Every step keeps the engine well formed, and the action handed out can
/// be performed. In particular a frame is only published from a shared buffer
/// that exists, a frame is only waited for after the previous one was given
/// back, and a shared buffer is only written while its keyed mutex is held.
pub proof fn lemma_stepped_wf(engine: InternalDesktopDuplicationApi, event: EngineEvent, now_ns: u128)
    requires
        engine.wf(),
    ensures
        engine.stepped(event, now_ns).0.wf(),
        engine.permits(engine.stepped(event, now_ns).0, engine.stepped(event, now_ns).1),
{
}

impl InternalDesktopDuplicationApi {
    /// How many of the three things that a request may hold are held: the
    /// frame of the OS and the two keyed mutexes.
    pub open spec fn held(self) -> nat {
        (if self.state.frame_locked {
            1nat
        } else {
            0nat
        }) + (if self.state.frame_key_held {
            1nat
        } else {
            0nat
        }) + (if self.state.cursor_key_held {
            1nat
        } else {
            0nat
        })
    }

    /// A bound on the steps that a request still takes once it waits for no
    /// further frame.
    pub open spec fn steps_left(self) -> nat {
        match self.phase {
            Phase::Idle => 0,
            Phase::Finishing(_) => 1 + self.held(),
            Phase::Reopening(_) => 4,
            Phase::Switching(_) => 5,
            Phase::Closing(_) => 6,
            Phase::Presenting => 4,
            Phase::Drawing => 5,
            Phase::QueryingHotspot(_) => 6,
            Phase::QueryingCursor => 7,
            Phase::Staging => 8,
            Phase::LockingShared => 9,
            Phase::CreatingShared => 10,
            Phase::CreatingScratch => 11,
            Phase::ReleasingFresh => 12,
            Phase::StoringFrame => 13,
            Phase::LockingStable => 14,
            Phase::CreatingStable => 15,
            Phase::Releasing => 16,
            Phase::ReadingShape { info, retried } => if retried {
                17
            } else {
                18
            },
            Phase::Polling => 19,
            Phase::Opening => 20,
        }
    }

    /// The phases of the wait loop that lead to another wait.
    pub open spec fn waits_on(self) -> bool {
        self.phase is Releasing || self.phase is Polling
    }
}

/// Every step brings a request nearer to its end, unless it leads to another
/// wait for a frame: a request takes at most 20 steps besides its waits.
pub proof fn lemma_progress(engine: InternalDesktopDuplicationApi, event: EngineEvent, now_ns: u128)
    requires
        engine.wf(),
        !(engine.stepped(event, now_ns).1 is Rejected),
        !engine.stepped(event, now_ns).0.waits_on(),
    ensures
        engine.stepped(event, now_ns).0.steps_left() < engine.steps_left(),
        engine.steps_left() <= 20,
        engine.stepped(event, now_ns).1 is Finish <==> engine.stepped(event, now_ns).0.steps_left()
            == 0,
{
}

/// Once the time budget of a request is used up, no step after the session
/// is open leads to another wait: the request ends within the steps that
/// are left.
pub proof fn lemma_deadline_ends_the_wait(
    engine: InternalDesktopDuplicationApi,
    event: EngineEvent,
    now_ns: u128,
)
    requires
        !(engine.phase is Opening),
        engine.elapsed(now_ns) >= engine.timeout_ns,
    ensures
        !(engine.stepped(event, now_ns).1 is Rejected) ==> !engine.stepped(
            event,
            now_ns,
        ).0.waits_on(),
        !(engine.stepped(event, now_ns).1 is AcquireNext),
{
}

/// Drawing the pointer. A pointer that is on screen is drawn exactly once,
/// with its hotspot on its screen position. The hotspot is asked for only
/// when the pointer is not the one drawn last, and is remembered with the
/// pointer from then on. After the drawing the frame goes on to be
/// published; nothing else of the session state changes.
pub proof fn lemma_cursor_drawn(
    engine: InternalDesktopDuplicationApi,
    cursor: RawCursor,
    found: (i32, i32),
)
    requires
        engine.phase is QueryingCursor,
        cursor.showing(),
    ensures
        ({
            let known = engine.state.cursor == Some(cursor.handle);
            let (queried, first) = engine.stepped(
                EngineEvent::CursorQueried { cursor: Some(cursor) },
                0,
            );
            let (drawing, draw) = if known {
                (queried, first)
            } else {
                queried.stepped(EngineEvent::HotspotFound { x: found.0, y: found.1 }, 0)
            };
            let hotspot = if known {
                (engine.state.hotspot_x, engine.state.hotspot_y)
            } else {
                found
            };
            &&& !known ==> first == (EngineAction::QueryHotspot { cursor: cursor.handle })
                && queried.state == engine.state
            &&& draw == (EngineAction::DrawCursor {
                cursor: cursor.handle,
                x: cursor.x.wrapping_sub(hotspot.0),
                y: cursor.y.wrapping_sub(hotspot.1),
            })
            &&& i32::MIN <= cursor.x - hotspot.0 <= i32::MAX ==> draw->DrawCursor_x == cursor.x
                - hotspot.0
            &&& i32::MIN <= cursor.y - hotspot.1 <= i32::MAX ==> draw->DrawCursor_y == cursor.y
                - hotspot.1
            &&& drawing.phase is Drawing
            &&& drawing.state == (DuplicationState {
                cursor: Some(cursor.handle),
                hotspot_x: hotspot.0,
                hotspot_y: hotspot.1,
                ..engine.state
            })
            &&& drawing.stepped(EngineEvent::Drawn, 0) == (
                InternalDesktopDuplicationApi { phase: Phase::Presenting, ..drawing },
                EngineAction::CopyFrame {
                    from: FrameSource::Buffer(BufferRole::CursorScratch),
                    to: BufferRole::CursorShared,
                },
            )
        }),
{
}

/// A pointer that is not on screen, or of which the OS cannot tell, is not
/// drawn: the frame is published as it is, and nothing is asked or changed.
pub proof fn lemma_hidden_cursor_not_drawn(
    engine: InternalDesktopDuplicationApi,
    cursor: Option<RawCursor>,
)
    requires
        engine.phase is QueryingCursor,
        cursor matches Some(c) ==> !c.showing(),
    ensures
        engine.stepped(EngineEvent::CursorQueried { cursor }, 0) == (
            InternalDesktopDuplicationApi { phase: Phase::Presenting, ..engine },
            EngineAction::CopyFrame {
                from: FrameSource::Buffer(BufferRole::CursorScratch),
                to: BufferRole::CursorShared,
            },
        ),
{
}

/// A pointer whose hotspot the OS cannot tell, or that cannot be drawn, fails
/// the request with `Unexpected` and is not remembered as drawn: the next
/// request asks for its hotspot again.
pub proof fn lemma_cursor_failures(
    engine: InternalDesktopDuplicationApi,
    detail: String,
)
    requires
        engine.phase is QueryingHotspot || engine.phase is Drawing,
    ensures
        ({
            let event = if engine.phase is Drawing {
                EngineEvent::DrawFailed { detail }
            } else {
                EngineEvent::HotspotFailed { detail }
            };
            let (failed, action) = engine.stepped(event, 0);
            &&& (failed, action) == engine.wound_up(Err(DDApiError::Unexpected(detail)))
            &&& failed.state.cursor == engine.state.cursor
            &&& failed.state.hotspot_x == engine.state.hotspot_x
            &&& failed.state.hotspot_y == engine.state.hotspot_y
            &&& !(action is DrawCursor)
        }),
{
}

/// A wait for a frame never outlasts the budget: the time asked of the OS is
/// what is left in whole milliseconds, or the longest wait that can be asked
/// at once where more is left.
pub proof fn lemma_wait_within_budget(engine: InternalDesktopDuplicationApi, now_ns: u128)
    requires
        engine.elapsed(now_ns) < engine.timeout_ns,
    ensures
        engine.remaining_ms(now_ns) <= MAX_WAIT_MS < u32::MAX,
        engine.remaining_ms(now_ns) * NANOS_PER_MILLI <= engine.timeout_ns - engine.elapsed(
            now_ns,
        ),
        engine.timeout_ns - engine.elapsed(now_ns) < (MAX_WAIT_MS + 1) * NANOS_PER_MILLI
            ==> engine.timeout_ns - engine.elapsed(now_ns) < (engine.remaining_ms(now_ns) + 1)
            * NANOS_PER_MILLI,
        !engine.state.frame_locked ==> engine.polled(now_ns).1 == (EngineAction::AcquireNext {
            timeout_ms: engine.remaining_ms(now_ns),
        }),
{
}

/// Recovery, step by step. When acquisition fails because the output was
/// lost, access was denied, or the previous frame was not released, the
/// engine gives the session up, has the thread attached to the input desktop
/// and has the session created once more. Whether that works or not, the
/// request ends with the recoverable error, and the engine is at rest, ready
/// for the next request; it has a session exactly if creation worked.
pub proof fn lemma_recovery(
    engine: InternalDesktopDuplicationApi,
    code: i32,
    detail: String,
    reopened: Option<(i32, String)>,
    now_ns: u128,
)
    requires
        engine.phase is Polling,
        !engine.state.frame_locked,
        AcquireFailure::of(code).rebuilds_session(),
    ensures
        ({
            let error = if AcquireFailure::of(code) is AccessDenied {
                DDApiError::AccessDenied
            } else {
                DDApiError::AccessLost
            };
            let (closing, a1) = engine.stepped(EngineEvent::AcquireFailed { code, detail }, now_ns);
            let (switching, a2) = closing.stepped(EngineEvent::Completed, now_ns);
            let (reopening, a3) = switching.stepped(EngineEvent::Completed, now_ns);
            let (rest, a4) = reopening.stepped(
                match reopened {
                    None => EngineEvent::SessionOpened,
                    Some((c, d)) => EngineEvent::SessionRefused { code: c, detail: d },
                },
                now_ns,
            );
            &&& a1 is CloseSession
            &&& a2 is SwitchDesktop
            &&& a3 is OpenSession
            &&& a4 == EngineAction::Finish(Err(error))
            &&& error.is_recoverable()
            &&& rest.is_at_rest()
            &&& rest.session == (reopened is None)
            &&& rest.state == DuplicationState::fresh()
            &&& rest.last_frame_info == engine.last_frame_info
            &&& rest.last_cursor_shape == engine.last_cursor_shape
            &&& rest.options == engine.options
        }),
{
}

/// The wait is bounded by the clock: once the budget is used up, no further
/// frame is waited for.
pub proof fn lemma_deadline(engine: InternalDesktopDuplicationApi, now_ns: u128)
    requires
        engine.elapsed(now_ns) >= engine.timeout_ns,
    ensures
        !(engine.polled(now_ns).1 is AcquireNext),
        engine.polled(now_ns) == engine.settled(),
        engine.state.frame is None && !engine.state.frame_locked && !engine.state.frame_key_held
            && !engine.state.cursor_key_held ==> engine.polled(now_ns).1 == EngineAction::Finish(
            Err(DDApiError::AccessLost),
        ),
{
}

/// With the pointer skipped the stable cache itself is published: once it is
/// up to date and the frame is given back, the engine hands its keyed mutex
/// to the consumer and ends the request.
pub proof fn lemma_skip_cursor_publishes_stable(engine: InternalDesktopDuplicationApi)
    requires
        engine.options.skip_cursor,
        !engine.state.frame_locked,
        engine.state.frame_key_held,
        !engine.state.cursor_key_held,
    ensures
        engine.composed().1 == (EngineAction::UnlockBuffer {
            role: BufferRole::Stable,
            key: CONSUMER_KEY,
        }),
        engine.composed().0.stepped(EngineEvent::Completed, 0).1 == EngineAction::Finish(
            Ok(BufferRole::Stable),
        ),
{
}

/// With the pointer drawn the published pointer frame goes to the consumer
/// and the stable cache stays with the producer.
pub proof fn lemma_composited_handoff(engine: InternalDesktopDuplicationApi)
    requires
        engine.phase is Presenting,
        !engine.state.frame_locked,
        engine.state.frame_key_held,
        engine.state.cursor_key_held,
    ensures
        ({
            let (s1, a1) = engine.stepped(EngineEvent::Completed, 0);
            let (s2, a2) = s1.stepped(EngineEvent::Completed, 0);
            let (s3, a3) = s2.stepped(EngineEvent::Completed, 0);
            &&& a1 == (EngineAction::UnlockBuffer { role: BufferRole::Stable, key: PRODUCER_KEY })
            &&& a2 == (EngineAction::UnlockBuffer {
                role: BufferRole::CursorShared,
                key: CONSUMER_KEY,
            })
            &&& a3 == EngineAction::Finish(Ok(BufferRole::CursorShared))
            &&& s3.is_at_rest()
        }),
{
}

/// Whenever the end of a request is announced, the frame of the OS has been
/// given back and no keyed mutex is held; and a wait for the next frame is
/// only ever started once the previous frame was given back.
pub proof fn lemma_stepped_at_rest(
    engine: InternalDesktopDuplicationApi,
    event: EngineEvent,
    now_ns: u128,
)
    ensures
        engine.stepped(event, now_ns).1 is Finish ==> engine.stepped(event, now_ns).0.is_at_rest(),
        engine.stepped(event, now_ns).1 is AcquireNext ==> !engine.state.frame_locked
            && !engine.stepped(event, now_ns).0.state.frame_locked,
        engine.stepped(event, now_ns).1 is Rejected ==> engine.stepped(event, now_ns).0 == engine,
        !(engine.stepped(event, now_ns).1 is Busy),
{
}

/// The same at the start of a request.
pub proof fn lemma_began_at_rest(
    engine: InternalDesktopDuplicationApi,
    timeout_ns: u128,
    now_ns: u128,
)
    ensures
        engine.began(timeout_ns, now_ns).1 is Finish ==> engine.began(
            timeout_ns,
            now_ns,
        ).0.is_at_rest(),
        engine.began(timeout_ns, now_ns).1 is AcquireNext ==> !engine.began(
            timeout_ns,
            now_ns,
        ).0.state.frame_locked,
        !(engine.phase is Idle) ==> engine.began(timeout_ns, now_ns) == (engine, EngineAction::Busy),
        timeout_ns == 0 ==> !(engine.began(timeout_ns, now_ns).1 is AcquireNext),
{
}

} // verus!
