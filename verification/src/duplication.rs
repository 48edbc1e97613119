//! The capture engine: frame metadata, cursor shapes, the acquisition state
//! machine and the protocols that hand frames across threads.

pub mod buffers;
pub mod client;
pub mod cursor;
pub mod engine;
pub mod frame_info;
pub mod keyed_mutex;
pub mod priority;
pub mod worker;

pub use buffers::{BufferRole, DuplicationState, TextureRequest};
pub use cursor::{CursorKind, CursorShape, CursorShapeView, DuplicationApiOptions, PointerShapeInfo};
pub use engine::{
    supported_formats, EngineAction, EngineEvent, FrameSource, InternalDesktopDuplicationApi,
    Phase, RawCursor,
};
pub use frame_info::{merge_into, CursorInfo, CursorPos, FrameInfo, RawFrameInfo};
pub use worker::{FrameData, ShareAction, SharedHandles, SharedSurface};
pub use client::{ClientAction, ClientEvent, ClientPhase, DesktopDuplicationApi};
pub use priority::{set_gpu_priority, set_thread_priority, ThreadPriorityPlan};
