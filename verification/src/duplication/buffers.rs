//! The GPU buffers of the engine and the session state they belong to.

use vstd::prelude::*;
use crate::texture::TextureDesc;

verus! {

/// `D3D11_USAGE_DEFAULT`: a buffer the GPU reads and writes.
pub const D3D11_USAGE_DEFAULT: i32 = 0;

/// `D3D11_BIND_RENDER_TARGET`.
pub const D3D11_BIND_RENDER_TARGET: u32 = 32;

/// `D3D11_RESOURCE_MISC_SHARED_KEYEDMUTEX`.
pub const D3D11_RESOURCE_MISC_SHARED_KEYEDMUTEX: u32 = 256;

/// `D3D11_RESOURCE_MISC_GDI_COMPATIBLE`.
pub const D3D11_RESOURCE_MISC_GDI_COMPATIBLE: u32 = 512;

/// `D3D11_RESOURCE_MISC_SHARED_NTHANDLE`.
pub const D3D11_RESOURCE_MISC_SHARED_NTHANDLE: u32 = 2048;

/// The key under which the producer takes a shared buffer to write it.
pub const PRODUCER_KEY: u64 = 0;

/// The key under which the consumer takes a shared buffer to read it.
pub const CONSUMER_KEY: u64 = 1;

/// How long a keyed mutex is waited for, in milliseconds.
pub const LOCK_WAIT_MS: u32 = 1000;

/// The buffers that the engine owns.
#[derive(Clone, Copy, Debug, PartialEq, Eq, Structural)]
pub enum BufferRole {
    /// The engine's own copy of the latest frame. Shareable across threads.
    Stable,
    /// The buffer the pointer is drawn into. Usable with raster drawing, not
    /// shareable.
    CursorScratch,
    /// The frame with the pointer on it, as published. Shareable across
    /// threads.
    CursorShared,
}

impl BufferRole {
    /// Shared buffers carry a keyed mutex.
    pub open spec fn is_shared(self) -> bool {
        self == BufferRole::Stable || self == BufferRole::CursorShared
    }

    /// The creation flags that a buffer of this role needs.
    pub open spec fn misc_flags(self) -> u32 {
        match self {
            BufferRole::CursorScratch => D3D11_RESOURCE_MISC_GDI_COMPATIBLE,
            _ => D3D11_RESOURCE_MISC_SHARED_NTHANDLE | D3D11_RESOURCE_MISC_SHARED_KEYEDMUTEX,
        }
    }
}

/// Everything needed to create one 2D texture.
#[derive(Clone, Copy, Debug, PartialEq, Eq, Structural)]
pub struct TextureRequest {
    pub width: u32,
    pub height: u32,
    pub mip_levels: u32,
    pub array_size: u32,
    /// The DXGI format code.
    pub format: i32,
    pub sample_count: u32,
    pub sample_quality: u32,
    pub usage: i32,
    pub bind_flags: u32,
    pub cpu_access_flags: u32,
    pub misc_flags: u32,
}

impl TextureRequest {
    /// The request for a buffer of the given role that holds pictures like
    /// `desc`: one mip level, one slice, no multisampling, a render target in
    /// GPU memory.
    pub open spec fn of(desc: TextureDesc, role: BufferRole) -> TextureRequest {
        TextureRequest {
            width: desc.width,
            height: desc.height,
            mip_levels: 1,
            array_size: 1,
            format: desc.format.dxgi_code(),
            sample_count: 1,
            sample_quality: 0,
            usage: D3D11_USAGE_DEFAULT,
            bind_flags: D3D11_BIND_RENDER_TARGET,
            cpu_access_flags: 0,
            misc_flags: role.misc_flags(),
        }
    }

    /// Plans the texture behind a buffer of the engine.
    pub fn create_texture(desc: TextureDesc, role: BufferRole) -> (request: TextureRequest)
        ensures
            request == TextureRequest::of(desc, role),
    {
        let misc_flags: u32 = match role {
            BufferRole::CursorScratch => D3D11_RESOURCE_MISC_GDI_COMPATIBLE,
            _ => D3D11_RESOURCE_MISC_SHARED_NTHANDLE | D3D11_RESOURCE_MISC_SHARED_KEYEDMUTEX,
        };
        TextureRequest {
            width: desc.width,
            height: desc.height,
            mip_levels: 1,
            array_size: 1,
            format: desc.format.to_dxgi(),
            sample_count: 1,
            sample_quality: 0,
            usage: D3D11_USAGE_DEFAULT,
            bind_flags: D3D11_BIND_RENDER_TARGET,
            cpu_access_flags: 0,
            misc_flags,
        }
    }
}

/// What the engine keeps for the lifetime of one duplication session.
#[derive(Clone, Copy, Debug, PartialEq, Eq, Structural)]
pub struct DuplicationState {
    /// An acquired frame of the OS is outstanding: acquired and not released.
    pub frame_locked: bool,
    /// The surface of the outstanding frame, if it came with one.
    pub last_resource: Option<TextureDesc>,
    /// The stable cache.
    pub frame: Option<TextureDesc>,
    /// The buffer the pointer is drawn into.
    pub cursor_frame: Option<TextureDesc>,
    /// The published frame with the pointer on it.
    pub shared_cursor_frame: Option<TextureDesc>,
    /// The engine holds the keyed mutex of the stable cache.
    pub frame_key_held: bool,
    /// The engine holds the keyed mutex of the published pointer frame.
    pub cursor_key_held: bool,
    /// The pointer that was drawn last.
    pub cursor: Option<isize>,
    pub hotspot_x: i32,
    pub hotspot_y: i32,
}

impl DuplicationState {
    /// The state of a session that has not delivered anything.
    pub open spec fn fresh() -> DuplicationState {
        DuplicationState {
            frame_locked: false,
            last_resource: None,
            frame: None,
            cursor_frame: None,
            shared_cursor_frame: None,
            frame_key_held: false,
            cursor_key_held: false,
            cursor: None,
            hotspot_x: 0,
            hotspot_y: 0,
        }
    }

    /// The state after the outstanding frame, if any, was given back.
    pub open spec fn released(self) -> DuplicationState {
        if self.frame_locked {
            DuplicationState { frame_locked: false, last_resource: None, ..self }
        } else {
            self
        }
    }

    /// The description of the buffer of a role, if the buffer exists.
    pub open spec fn buffer(self, role: BufferRole) -> Option<TextureDesc> {
        match role {
            BufferRole::Stable => self.frame,
            BufferRole::CursorScratch => self.cursor_frame,
            BufferRole::CursorShared => self.shared_cursor_frame,
        }
    }

    /// The description of the buffer of a role, if the buffer exists.
    pub fn buffer_of(&self, role: BufferRole) -> (desc: Option<TextureDesc>)
        ensures
            desc == self.buffer(role),
    {
        match role {
            BufferRole::Stable => self.frame,
            BufferRole::CursorScratch => self.cursor_frame,
            BufferRole::CursorShared => self.shared_cursor_frame,
        }
    }

    /// Forgets everything that belonged to the session that ended.
    pub fn reset(&mut self)
        ensures
            *final(self) == DuplicationState::fresh(),
    {
        *self = DuplicationState {
            frame_locked: false,
            last_resource: None,
            frame: None,
            cursor_frame: None,
            shared_cursor_frame: None,
            frame_key_held: false,
            cursor_key_held: false,
            cursor: None,
            hotspot_x: 0,
            hotspot_y: 0,
        };
    }

    /// Gives the outstanding frame back. Returns whether the OS has to be
    /// told: with no frame outstanding nothing happens and nothing changes.
    pub fn release(&mut self) -> (issue: bool)
        ensures
            issue == old(self).frame_locked,
            *final(self) == old(self).released(),
            !old(self).frame_locked ==> *final(self) == *old(self),
            !final(self).frame_locked,
    {
        if self.frame_locked {
            self.frame_locked = false;
            self.last_resource = None;
            true
        } else {
            false
        }
    }
}

impl Default for DuplicationState {
    fn default() -> (r: Self)
        ensures
            r == DuplicationState::fresh(),
    {
        DuplicationState {
            frame_locked: false,
            last_resource: None,
            frame: None,
            cursor_frame: None,
            shared_cursor_frame: None,
            frame_key_held: false,
            cursor_key_held: false,
            cursor: None,
            hotspot_x: 0,
            hotspot_y: 0,
        }
    }
}

} // verus!
