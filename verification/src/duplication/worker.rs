//! The producer side of the thread boundary: which shareable handle goes out
//! with a frame, and what is sent to the consumer.

use vstd::prelude::*;
use crate::duplication::cursor::{clone_shape, shape_view, CursorShape, CursorShapeView};
use crate::duplication::engine::InternalDesktopDuplicationApi;
use crate::duplication::frame_info::FrameInfo;

verus! {

/// What travels to the consumer with a frame.
#[derive(Debug)]
pub struct FrameData {
    /// The shareable handle of the published surface.
    pub handle: isize,
    pub info: FrameInfo,
    pub shape: Option<CursorShape>,
}

/// A published surface and the shareable handle that was created for it.
#[derive(Clone, Copy, Debug, PartialEq, Eq, Structural)]
pub struct SharedSurface {
    /// The identity of the surface: equal for the same surface, different
    /// for different surfaces that exist at the same time.
    pub surface: usize,
    pub handle: isize,
}

/// What to do about the handle of the surface that is published next.
#[derive(Clone, Copy, Debug, PartialEq, Eq, Structural)]
pub enum ShareAction {
    /// The surface is the one published last: its handle goes out again.
    Reuse(isize),
    /// The surface is new: close the handle named, if any, and create a
    /// handle for the new surface.
    Replace { close: Option<isize> },
}

/// The handle that the worker keeps open: that of the surface it published
/// last. A handle is created once per new surface, not once per request.
#[derive(Clone, Copy, Debug, PartialEq, Eq, Structural)]
pub struct SharedHandles {
    pub current: Option<SharedSurface>,
}

impl SharedHandles {
    /// What `publish` answers for a surface, and what is kept afterwards.
    pub open spec fn published(self, surface: usize) -> (SharedHandles, ShareAction) {
        match self.current {
            Some(s) => if s.surface == surface {
                (self, ShareAction::Reuse(s.handle))
            } else {
                (SharedHandles { current: None }, ShareAction::Replace { close: Some(s.handle) })
            },
            None => (self, ShareAction::Replace { close: None }),
        }
    }

    /// No surface was published yet.
    pub fn new() -> (h: Self)
        ensures
            h.current is None,
    {
        SharedHandles { current: None }
    }

    /// Decides which handle goes out with `surface`. The handle of the last
    /// surface is kept as long as the same surface is published; when another
    /// surface comes, the old handle is to be closed and is forgotten.
    pub fn publish(&mut self, surface: usize) -> (action: ShareAction)
        ensures
            (*final(self), action) == old(self).published(surface),
    {
        match self.current {
            Some(s) => {
                if s.surface == surface {
                    ShareAction::Reuse(s.handle)
                } else {
                    self.current = None;
                    ShareAction::Replace { close: Some(s.handle) }
                }
            },
            None => ShareAction::Replace { close: None },
        }
    }

    /// Records the handle that was created for the new surface.
    pub fn installed(&mut self, surface: usize, handle: isize)
        ensures
            final(self).current == Some(SharedSurface { surface, handle }),
    {
        self.current = Some(SharedSurface { surface, handle });
    }
}

impl Default for SharedHandles {
    fn default() -> (h: Self)
        ensures
            h.current is None,
    {
        SharedHandles { current: None }
    }
}

/// As long as the same surface is published, the same handle goes out and
/// nothing is closed or created; a new surface has the old handle closed
/// before anything else.
pub proof fn lemma_handle_reused(handles: SharedHandles, surface: usize, handle: isize, next: usize)
    requires
        handles.current == Some(SharedSurface { surface, handle }),
    ensures
        handles.published(surface) == (handles, ShareAction::Reuse(handle)),
        next != surface ==> handles.published(next) == (
            SharedHandles { current: None },
            ShareAction::Replace { close: Some(handle) },
        ),
{
}

impl InternalDesktopDuplicationApi {
    /// Puts together what goes to the consumer with a frame: the handle, the
    /// frame metadata, which is handed out and forgotten, and a copy of the
    /// latest pointer shape.
    pub fn frame_data(&mut self, handle: isize) -> (data: FrameData)
        ensures
            data.handle == handle,
            data.info == match old(self).last_frame_info {
                Some(raw) => FrameInfo::of(raw),
                None => FrameInfo::empty(),
            },
            shape_view(data.shape) == shape_view(old(self).last_cursor_shape),
            *final(self) == (InternalDesktopDuplicationApi { last_frame_info: None, ..*old(self) }),
            old(self).wf() ==> final(self).wf(),
    {
        let info = self.get_last_frame_info();
        let shape = clone_shape(&self.last_cursor_shape);
        FrameData { handle, info, shape }
    }
}

} // verus!
