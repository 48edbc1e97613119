//! Pointer shapes as the OS hands them out with a frame, and the options of
//! the engine.

use vstd::prelude::*;
use vstd::std_specs::convert::FromSpecImpl;
use crate::duplication::frame_info::CursorPos;

verus! {

/// How the bitmap of a pointer shape is encoded.
#[derive(Clone, Copy, Debug, PartialEq, Eq, Structural)]
pub enum CursorKind {
    /// One bit per pixel: an AND mask stacked on an XOR mask.
    SingleBit,
    /// 32 bit colour with alpha.
    ARGB,
    /// 32 bit colour whose alpha byte selects between replace and XOR.
    Masked,
}

impl Default for CursorKind {
    fn default() -> (r: Self)
        ensures
            r == CursorKind::SingleBit,
    {
        CursorKind::SingleBit
    }
}

impl CursorKind {
    /// The kind that a shape type tag stands for. Unknown tags count as colour.
    pub open spec fn of_tag(tag: u32) -> CursorKind {
        if tag == 1 {
            CursorKind::SingleBit
        } else if tag == 2 {
            CursorKind::ARGB
        } else if tag == 4 {
            CursorKind::Masked
        } else {
            CursorKind::ARGB
        }
    }
}

impl From<u32> for CursorKind {
    fn from(value: u32) -> (r: Self) {
        if value == 1 {
            CursorKind::SingleBit
        } else if value == 2 {
            CursorKind::ARGB
        } else if value == 4 {
            CursorKind::Masked
        } else {
            CursorKind::ARGB
        }
    }
}

impl FromSpecImpl<u32> for CursorKind {
    open spec fn obeys_from_spec() -> bool {
        true
    }

    open spec fn from_spec(value: u32) -> Self {
        CursorKind::of_tag(value)
    }
}

/// What the OS reports about a pointer shape besides its bitmap.
#[derive(Clone, Copy, Debug, PartialEq, Eq, Structural)]
pub struct PointerShapeInfo {
    /// The shape type tag.
    pub kind: u32,
    pub width: u32,
    pub height: u32,
    pub pitch: u32,
    pub hotspot: CursorPos,
}

/// A pointer shape: the raw bitmap and how to read it.
#[derive(Debug)]
pub struct CursorShape {
    pub buffer: Vec<u8>,
    pub width: u32,
    pub height: u32,
    pub pitch: u32,
    pub kind: CursorKind,
    pub hotspot: CursorPos,
}

/// The mathematical content of a [`CursorShape`].
pub struct CursorShapeView {
    pub buffer: Seq<u8>,
    pub width: u32,
    pub height: u32,
    pub pitch: u32,
    pub kind: CursorKind,
    pub hotspot: CursorPos,
}

impl View for CursorShape {
    type V = CursorShapeView;

    open spec fn view(&self) -> CursorShapeView {
        CursorShapeView {
            buffer: self.buffer@,
            width: self.width,
            height: self.height,
            pitch: self.pitch,
            kind: self.kind,
            hotspot: self.hotspot,
        }
    }
}

impl CursorShapeView {
    /// The shape without a bitmap.
    pub open spec fn empty() -> CursorShapeView {
        CursorShapeView {
            buffer: Seq::empty(),
            width: 0,
            height: 0,
            pitch: 0,
            kind: CursorKind::SingleBit,
            hotspot: CursorPos { cx: 0, cy: 0 },
        }
    }

    /// The shape made of a bitmap and what the OS reports about it.
    pub open spec fn of(buffer: Seq<u8>, info: PointerShapeInfo) -> CursorShapeView {
        CursorShapeView {
            buffer,
            width: info.width,
            height: info.height,
            pitch: info.pitch,
            kind: CursorKind::of_tag(info.kind),
            hotspot: info.hotspot,
        }
    }
}

impl Default for CursorShape {
    fn default() -> (r: Self)
        ensures
            r@ == CursorShapeView::empty(),
    {
        CursorShape {
            buffer: Vec::new(),
            width: 0,
            height: 0,
            pitch: 0,
            kind: CursorKind::SingleBit,
            hotspot: CursorPos { cx: 0, cy: 0 },
        }
    }
}

impl Clone for CursorShape {
    fn clone(&self) -> (r: Self)
        ensures
            r@ == self@,
    {
        CursorShape {
            buffer: self.buffer.clone(),
            width: self.width,
            height: self.height,
            pitch: self.pitch,
            kind: self.kind,
            hotspot: self.hotspot,
        }
    }
}

impl CursorShape {
    /// Puts a bitmap and the report that came with it together. The bitmap is
    /// taken as it is.
    pub fn from_raw(buffer: Vec<u8>, info: PointerShapeInfo) -> (shape: CursorShape)
        ensures
            shape@ == CursorShapeView::of(buffer@, info),
            shape.buffer == buffer,
    {
        CursorShape {
            buffer,
            width: info.width,
            height: info.height,
            pitch: info.pitch,
            kind: CursorKind::from(info.kind),
            hotspot: info.hotspot,
        }
    }
}

/// The content of an optional shape.
pub open spec fn shape_view(shape: Option<CursorShape>) -> Option<CursorShapeView> {
    match shape {
        Some(s) => Some(s@),
        None => None,
    }
}

/// Copies an optional shape.
pub fn clone_shape(shape: &Option<CursorShape>) -> (r: Option<CursorShape>)
    ensures
        shape_view(r) == shape_view(*shape),
{
    match shape {
        Some(s) => Some(s.clone()),
        None => None,
    }
}

/// Settings of the engine; they may change at any time and apply from the
/// next acquisition on.
#[derive(Clone, Copy, Debug, PartialEq, Eq, Structural)]
pub struct DuplicationApiOptions {
    /// When set, the pointer is not drawn onto the frames.
    pub skip_cursor: bool,
}

impl Default for DuplicationApiOptions {
    fn default() -> (r: Self)
        ensures
            r == (DuplicationApiOptions { skip_cursor: false }),
    {
        DuplicationApiOptions { skip_cursor: false }
    }
}

} // verus!
