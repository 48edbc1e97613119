//! Capture-engine logic for desktop duplication: the frame-acquisition state
//! machine, the protocols that hand frames across threads, frame metadata
//! merging, texture descriptions and CPU read-back layouts, each with a
//! machine-checked contract.
//!
//! The library owns no OS object. Whatever touches the graphics stack is done
//! by a driver that performs the actions the state machines hand out and
//! reports back what happened.

pub mod devices;
pub mod duplication;
pub mod errors;
pub mod outputs;
pub mod tex_reader;
pub mod texture;
pub mod utils;

pub use duplication::{
    BufferRole, ClientAction, ClientEvent, ClientPhase, CursorInfo, CursorKind, CursorPos,
    CursorShape, DesktopDuplicationApi, DuplicationApiOptions, DuplicationState, EngineAction,
    EngineEvent, FrameData, FrameInfo, FrameSource, InternalDesktopDuplicationApi, Phase,
    PointerShapeInfo, RawCursor, RawFrameInfo, ShareAction, SharedHandles, SharedSurface,
    TextureRequest,
};
pub use errors::{DDApiError, Result};
