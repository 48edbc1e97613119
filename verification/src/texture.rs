//! Texture descriptions: the pixel-format tag, how raw surface descriptions
//! are turned into [`TextureDesc`], and the cache that resolves a description
//! once per texture.

use vstd::prelude::*;

verus! {

/// `DXGI_FORMAT_UNKNOWN`.
pub const DXGI_FORMAT_UNKNOWN: i32 = 0;

/// `DXGI_FORMAT_R16G16B16A16_FLOAT`.
pub const DXGI_FORMAT_R16G16B16A16_FLOAT: i32 = 10;

/// `DXGI_FORMAT_R10G10B10A2_UNORM`.
pub const DXGI_FORMAT_R10G10B10A2_UNORM: i32 = 24;

/// `DXGI_FORMAT_R8G8B8A8_UNORM`.
pub const DXGI_FORMAT_R8G8B8A8_UNORM: i32 = 28;

/// `DXGI_FORMAT_R16_UNORM`.
pub const DXGI_FORMAT_R16_UNORM: i32 = 56;

/// `DXGI_FORMAT_R8_UNORM`.
pub const DXGI_FORMAT_R8_UNORM: i32 = 61;

/// `DXGI_FORMAT_B8G8R8A8_UNORM`.
pub const DXGI_FORMAT_B8G8R8A8_UNORM: i32 = 87;

/// `DXGI_FORMAT_AYUV`.
pub const DXGI_FORMAT_AYUV: i32 = 100;

/// `DXGI_FORMAT_Y410`.
pub const DXGI_FORMAT_Y410: i32 = 101;

/// `DXGI_FORMAT_NV12`.
pub const DXGI_FORMAT_NV12: i32 = 103;

/// `DXGI_FORMAT_P010`.
pub const DXGI_FORMAT_P010: i32 = 104;

/// The pixel formats the library tells apart. Other libraries' format tags
/// are converted into this one.
#[allow(non_camel_case_types)]
#[derive(Clone, Copy, Debug, PartialEq, Eq, Structural)]
pub enum ColorFormat {
    Unknown,
    /// Packed 8 bit per channel ARGB, unsigned normalized.
    ARGB8UNorm,
    /// Packed 8 bit per channel ABGR, unsigned normalized.
    ABGR8UNorm,
    /// Planar 8 bit YUV 4:4:4: three full planes stacked.
    YUV444,
    /// Packed 8 bit AYUV 4:4:4 with alpha.
    AYUV,
    /// Planar 8 bit YUV 4:2:0: the u and v planes have half the width and height.
    YUV420,
    /// Semi-planar 8 bit YUV 4:2:0: the Y plane, then interleaved u and v.
    NV12,
    /// Packed 16 bit per channel ARGB float.
    ARGB16Float,
    /// Packed 10 bit per colour channel, 2 bit alpha.
    ARGB10UNorm,
    /// Packed 10 bit per YUV channel, 2 bit alpha, 4:4:4.
    Y410,
    /// Planar 16 bit YUV 4:4:4, of which 10 bits are significant.
    YUV444_10bit,
    /// Semi-planar 16 bit YUV 4:2:0, of which 10 bits are significant (P010).
    YUV420_10bit,
}

impl Default for ColorFormat {
    fn default() -> (r: Self)
        ensures
            r == ColorFormat::Unknown,
    {
        ColorFormat::Unknown
    }
}

impl ColorFormat {
    /// The format that a DXGI format code stands for; `Unknown` for every
    /// code without a counterpart.
    pub open spec fn of_dxgi(code: i32) -> ColorFormat {
        if code == DXGI_FORMAT_R8G8B8A8_UNORM {
            ColorFormat::ARGB8UNorm
        } else if code == DXGI_FORMAT_B8G8R8A8_UNORM {
            ColorFormat::ABGR8UNorm
        } else if code == DXGI_FORMAT_AYUV {
            ColorFormat::AYUV
        } else if code == DXGI_FORMAT_R8_UNORM {
            ColorFormat::YUV444
        } else if code == DXGI_FORMAT_R16_UNORM {
            ColorFormat::YUV444_10bit
        } else if code == DXGI_FORMAT_NV12 {
            ColorFormat::NV12
        } else if code == DXGI_FORMAT_R16G16B16A16_FLOAT {
            ColorFormat::ARGB16Float
        } else if code == DXGI_FORMAT_R10G10B10A2_UNORM {
            ColorFormat::ARGB10UNorm
        } else if code == DXGI_FORMAT_Y410 {
            ColorFormat::Y410
        } else if code == DXGI_FORMAT_P010 {
            ColorFormat::YUV420_10bit
        } else {
            ColorFormat::Unknown
        }
    }

    /// The DXGI format code of a format; `DXGI_FORMAT_UNKNOWN` for the
    /// formats DXGI has no code for.
    pub open spec fn dxgi_code(self) -> i32 {
        match self {
            ColorFormat::ARGB8UNorm => DXGI_FORMAT_R8G8B8A8_UNORM,
            ColorFormat::ABGR8UNorm => DXGI_FORMAT_B8G8R8A8_UNORM,
            ColorFormat::AYUV => DXGI_FORMAT_AYUV,
            ColorFormat::YUV444 => DXGI_FORMAT_R8_UNORM,
            ColorFormat::YUV444_10bit => DXGI_FORMAT_R16_UNORM,
            ColorFormat::NV12 => DXGI_FORMAT_NV12,
            ColorFormat::ARGB16Float => DXGI_FORMAT_R16G16B16A16_FLOAT,
            ColorFormat::ARGB10UNorm => DXGI_FORMAT_R10G10B10A2_UNORM,
            ColorFormat::Y410 => DXGI_FORMAT_Y410,
            ColorFormat::YUV420_10bit => DXGI_FORMAT_P010,
            ColorFormat::Unknown => DXGI_FORMAT_UNKNOWN,
            ColorFormat::YUV420 => DXGI_FORMAT_UNKNOWN,
        }
    }

    /// Converts a DXGI format code.
    pub fn from_dxgi(code: i32) -> (f: ColorFormat)
        ensures
            f == ColorFormat::of_dxgi(code),
    {
        if code == DXGI_FORMAT_R8G8B8A8_UNORM {
            ColorFormat::ARGB8UNorm
        } else if code == DXGI_FORMAT_B8G8R8A8_UNORM {
            ColorFormat::ABGR8UNorm
        } else if code == DXGI_FORMAT_AYUV {
            ColorFormat::AYUV
        } else if code == DXGI_FORMAT_R8_UNORM {
            ColorFormat::YUV444
        } else if code == DXGI_FORMAT_R16_UNORM {
            ColorFormat::YUV444_10bit
        } else if code == DXGI_FORMAT_NV12 {
            ColorFormat::NV12
        } else if code == DXGI_FORMAT_R16G16B16A16_FLOAT {
            ColorFormat::ARGB16Float
        } else if code == DXGI_FORMAT_R10G10B10A2_UNORM {
            ColorFormat::ARGB10UNorm
        } else if code == DXGI_FORMAT_Y410 {
            ColorFormat::Y410
        } else if code == DXGI_FORMAT_P010 {
            ColorFormat::YUV420_10bit
        } else {
            ColorFormat::Unknown
        }
    }

    /// Converts into a DXGI format code.
    pub fn to_dxgi(self) -> (code: i32)
        ensures
            code == self.dxgi_code(),
    {
        match self {
            ColorFormat::ARGB8UNorm => DXGI_FORMAT_R8G8B8A8_UNORM,
            ColorFormat::ABGR8UNorm => DXGI_FORMAT_B8G8R8A8_UNORM,
            ColorFormat::AYUV => DXGI_FORMAT_AYUV,
            ColorFormat::YUV444 => DXGI_FORMAT_R8_UNORM,
            ColorFormat::YUV444_10bit => DXGI_FORMAT_R16_UNORM,
            ColorFormat::NV12 => DXGI_FORMAT_NV12,
            ColorFormat::ARGB16Float => DXGI_FORMAT_R16G16B16A16_FLOAT,
            ColorFormat::ARGB10UNorm => DXGI_FORMAT_R10G10B10A2_UNORM,
            ColorFormat::Y410 => DXGI_FORMAT_Y410,
            ColorFormat::YUV420_10bit => DXGI_FORMAT_P010,
            ColorFormat::Unknown => DXGI_FORMAT_UNKNOWN,
            ColorFormat::YUV420 => DXGI_FORMAT_UNKNOWN,
        }
    }

    /// Formats stored as three stacked planes: the surface is three times as
    /// high as the picture.
    pub open spec fn is_stacked_planar(self) -> bool {
        self == ColorFormat::YUV444 || self == ColorFormat::YUV444_10bit
    }
}

/// Every format that DXGI has a code for survives the way to its code and back.
pub proof fn lemma_format_round_trip(f: ColorFormat)
    requires
        f != ColorFormat::YUV420,
    ensures
        ColorFormat::of_dxgi(f.dxgi_code()) == f,
{
}

/// A code that stands for a known format is the code of that format.
pub proof fn lemma_code_round_trip(code: i32)
    requires
        ColorFormat::of_dxgi(code) != ColorFormat::Unknown,
    ensures
        ColorFormat::of_dxgi(code).dxgi_code() == code,
{
}

/// The basic properties of a texture.
#[derive(Clone, Copy, Debug, PartialEq, Eq, Structural)]
pub struct TextureDesc {
    pub height: u32,
    pub width: u32,
    pub format: ColorFormat,
}

impl TextureDesc {
    /// The description of a surface that reports the given size and format
    /// code. For stacked planar formats the picture is a third as high as the
    /// surface.
    pub open spec fn of_raw(width: u32, height: u32, format_code: i32) -> TextureDesc {
        let format = ColorFormat::of_dxgi(format_code);
        TextureDesc {
            width,
            height: if format.is_stacked_planar() {
                (height / 3) as u32
            } else {
                height
            },
            format,
        }
    }

    /// Describes a surface from what the graphics stack reports of it.
    pub fn from_raw(width: u32, height: u32, format_code: i32) -> (desc: TextureDesc)
        ensures
            desc == TextureDesc::of_raw(width, height, format_code),
    {
        let format = ColorFormat::from_dxgi(format_code);
        let height = match format {
            ColorFormat::YUV444 => height / 3,
            ColorFormat::YUV444_10bit => height / 3,
            _ => height,
        };
        TextureDesc { width, height, format }
    }
}

/// The description of one texture, resolved on first use and kept from then on.
/// A new texture starts with a new, empty cache.
pub struct DescCache {
    cached: Option<TextureDesc>,
}

impl DescCache {
    /// The description held, if one was resolved.
    pub closed spec fn value(&self) -> Option<TextureDesc> {
        self.cached
    }

    /// The state after looking the description up while the surface reports
    /// the given raw values, together with the description returned.
    pub open spec fn resolved(
        &self,
        width: u32,
        height: u32,
        format_code: i32,
    ) -> (Option<TextureDesc>, TextureDesc) {
        match self.value() {
            Some(d) => (Some(d), d),
            None => (
                Some(TextureDesc::of_raw(width, height, format_code)),
                TextureDesc::of_raw(width, height, format_code),
            ),
        }
    }

    /// The cache of a texture that was not described yet.
    pub fn new() -> (c: Self)
        ensures
            c.value() is None,
    {
        DescCache { cached: None }
    }

    /// The cached description. While this is `Some`, the surface need not be
    /// queried.
    pub fn get(&self) -> (d: Option<TextureDesc>)
        ensures
            d == self.value(),
    {
        self.cached
    }

    /// Returns the description of the texture. The raw values are what the
    /// surface reports; they are used only if nothing is cached yet, and the
    /// description made from them is cached.
    pub fn resolve(&mut self, width: u32, height: u32, format_code: i32) -> (d: TextureDesc)
        ensures
            (final(self).value(), d) == old(self).resolved(width, height, format_code),
            final(self).value() == Some(d),
    {
        match self.cached {
            Some(d) => d,
            None => {
                let d = TextureDesc::from_raw(width, height, format_code);
                self.cached = Some(d);
                d
            },
        }
    }
}

/// Asking twice gives the same description, and the second answer does not
/// depend on what the surface reports by then: it is not queried again.
pub proof fn lemma_desc_is_cached(
    cache: DescCache,
    first: (u32, u32, i32),
    second: (u32, u32, i32),
    after_first: DescCache,
)
    requires
        after_first.value() == cache.resolved(first.0, first.1, first.2).0,
    ensures
        after_first.value() is Some,
        after_first.resolved(second.0, second.1, second.2).1 == cache.resolved(
            first.0,
            first.1,
            first.2,
        ).1,
        after_first.resolved(second.0, second.1, second.2).0 == after_first.value(),
{
}

} // verus!
