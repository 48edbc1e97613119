//! Reading a texture back into system memory. The GPU side (copying into a
//! staging texture and mapping it) belongs to the caller; this module decides
//! when the staging texture has to be made anew and copies the mapped bytes
//! into the caller's buffer, row by row, as the pixel format demands.

use vstd::prelude::*;
use vstd::arithmetic::div_mod::lemma_fundamental_div_mod_converse;
use crate::duplication::buffers::TextureRequest;
use crate::texture::{ColorFormat, TextureDesc};

verus! {

/// `D3D11_USAGE_STAGING`: a texture the CPU can read.
pub const D3D11_USAGE_STAGING: i32 = 3;

/// `D3D11_CPU_ACCESS_READ`.
pub const D3D11_CPU_ACCESS_READ: u32 = 131072;

impl ColorFormat {
    /// The formats that can be read back.
    pub open spec fn readable(self) -> bool {
        self.is_packed4() || self == ColorFormat::YUV444 || self == ColorFormat::NV12
    }

    /// The packed formats of four bytes per pixel: the 8 bit ones and the
    /// ones of 10 bits per colour channel with 2 bits of alpha.
    pub open spec fn is_packed4(self) -> bool {
        self == ColorFormat::ABGR8UNorm || self == ColorFormat::ARGB8UNorm || self
            == ColorFormat::AYUV || self == ColorFormat::ARGB10UNorm || self == ColorFormat::Y410
    }

    /// The bytes that one sample takes in a row: four in the packed formats,
    /// one in the planar ones.
    pub open spec fn bytes_per_sample(self) -> int {
        if self.is_packed4() {
            4
        } else if self == ColorFormat::YUV444 || self == ColorFormat::NV12 {
            1
        } else {
            0
        }
    }

    /// Whether textures of this format can be read back.
    pub fn is_readable(self) -> (r: bool)
        ensures
            r == self.readable(),
    {
        match self {
            ColorFormat::ABGR8UNorm => true,
            ColorFormat::ARGB8UNorm => true,
            ColorFormat::AYUV => true,
            ColorFormat::ARGB10UNorm => true,
            ColorFormat::Y410 => true,
            ColorFormat::YUV444 => true,
            ColorFormat::NV12 => true,
            _ => false,
        }
    }
}

/// The bytes copied per row of a picture `width` pixels wide.
pub open spec fn row_bytes(format: ColorFormat, width: int) -> int {
    width * format.bytes_per_sample()
}

/// The rows copied for a picture `height` pixels high: `height` rows in the
/// packed formats, three planes of `height` rows in planar 4:4:4, and one and
/// a half times `height` rows in semi-planar 4:2:0.
pub open spec fn row_count(format: ColorFormat, height: int) -> int {
    if format.is_packed4() {
        height
    } else if format == ColorFormat::YUV444 {
        height * 3
    } else if format == ColorFormat::NV12 {
        height * 3 / 2
    } else {
        0
    }
}

/// The size of the buffer that holds a picture: `width * height * 4` bytes
/// in the packed formats, `width * height * 3` in planar 4:4:4, and
/// `width * height * 3 / 2` in semi-planar 4:2:0.
pub open spec fn buffer_len(format: ColorFormat, width: int, height: int) -> int {
    if format.is_packed4() {
        width * height * 4
    } else if format == ColorFormat::YUV444 {
        width * height * 3
    } else if format == ColorFormat::NV12 {
        width * height * 3 / 2
    } else {
        0
    }
}

/// The position of column `c` of row `r` in a stretch of memory whose rows
/// are `stride` bytes apart.
pub open spec fn cell(stride: int, r: int, c: int) -> int {
    r * stride + c
}

/// A rectangle of pixels within a picture.
#[derive(Clone, Copy, Debug, PartialEq, Eq, Structural)]
pub struct Region {
    pub x: u32,
    pub y: u32,
    pub width: u32,
    pub height: u32,
}

/// A texture that is mapped for reading: its description, the mapped bytes
/// and the distance between the starts of two rows.
pub struct MappedTexture<'a> {
    pub desc: TextureDesc,
    pub row_pitch: u32,
    pub data: &'a [u8],
}

impl<'a> MappedTexture<'a> {
    /// Whether the mapped bytes hold every row that is read for `region`:
    /// rows `region.y` and following, each from the byte of column
    /// `region.x` on.
    pub open spec fn covers(&self, region: Region) -> bool {
        let rows = row_count(self.desc.format, region.height as int);
        let bytes = row_bytes(self.desc.format, region.width as int);
        rows > 0 && bytes > 0 ==> cell(self.row_pitch as int, region.y + rows - 1, 0)
            + region.x * self.desc.format.bytes_per_sample() + bytes <= self.data@.len()
    }

    /// The region that is the whole picture.
    pub open spec fn whole(&self) -> Region {
        Region { x: 0, y: 0, width: self.desc.width, height: self.desc.height }
    }

    /// What reading `region` leaves in a buffer that held `before`: the rows
    /// of the region one after the other, and behind them, where the buffer
    /// is longer than the rows, what was there before or zero.
    pub open spec fn read_back(&self, region: Region, before: Seq<u8>, after: Seq<u8>) -> bool {
        let format = self.desc.format;
        let rows = row_count(format, region.height as int);
        let bytes = row_bytes(format, region.width as int);
        let shift = region.x * format.bytes_per_sample();
        &&& after.len() == buffer_len(format, region.width as int, region.height as int)
        &&& forall|r: int, c: int|
            0 <= r < rows && 0 <= c < bytes ==> after[#[trigger] cell(bytes, r, c)]
                == self.data@[cell(self.row_pitch as int, region.y + r, shift + c)]
        &&& forall|k: int|
            rows * bytes <= k < after.len() ==> #[trigger] after[k] == if k < before.len() {
                before[k]
            } else {
                0u8
            }
    }
}

/// The rows of a picture never take more room than its buffer has.
pub proof fn lemma_rows_fit(format: ColorFormat, width: int, height: int)
    requires
        0 <= width,
        0 <= height,
    ensures
        0 <= row_count(format, height),
        0 <= row_bytes(format, width),
        0 <= row_count(format, height) * row_bytes(format, width) <= buffer_len(
            format,
            width,
            height,
        ),
        format != ColorFormat::NV12 ==> row_count(format, height) * row_bytes(format, width)
            == buffer_len(format, width, height),
{
    if format.is_packed4() {
        assert(height * (width * 4) == width * height * 4) by (nonlinear_arith);
        assert(0 <= width * height * 4) by (nonlinear_arith)
            requires
                0 <= width,
                0 <= height,
        ;
    } else if format == ColorFormat::YUV444 {
        assert((height * 3) * (width * 1) == width * height * 3) by (nonlinear_arith);
        assert(0 <= width * height * 3) by (nonlinear_arith)
            requires
                0 <= width,
                0 <= height,
        ;
    } else if format == ColorFormat::NV12 {
        let rows = height * 3 / 2;
        assert(0 <= rows && rows * 2 <= height * 3);
        assert(rows * (width * 1) == rows * width) by (nonlinear_arith);
        assert(0 <= rows * width && rows * width * 2 <= width * height * 3) by (nonlinear_arith)
            requires
                0 <= rows,
                rows * 2 <= height * 3,
                0 <= width,
        ;
        assert(rows * width <= width * height * 3 / 2);
    } else {
        assert(0 * (width * 0) == 0) by (nonlinear_arith);
    }
}

/// The product of two 32 bit numbers.
fn area_of(a: u32, b: u32) -> (p: u64)
    ensures
        p == a * b,
{
    assert(a * b <= 0xFFFF_FFFF * 0xFFFF_FFFF) by (nonlinear_arith)
        requires
            a <= 0xFFFF_FFFF,
            b <= 0xFFFF_FFFF,
    ;
    (a as u64) * (b as u64)
}

/// The size of the buffer that a picture of the given format and size needs,
/// or `None` if no buffer of this machine can be that large.
pub fn buffer_size(format: ColorFormat, width: u32, height: u32) -> (size: Option<usize>)
    ensures
        match size {
            Some(n) => n == buffer_len(format, width as int, height as int),
            None => buffer_len(format, width as int, height as int) > usize::MAX,
        },
{
    let area: u128 = area_of(width, height) as u128;
    let total: u128 = match format {
        ColorFormat::ABGR8UNorm => area * 4,
        ColorFormat::ARGB8UNorm => area * 4,
        ColorFormat::AYUV => area * 4,
        ColorFormat::ARGB10UNorm => area * 4,
        ColorFormat::Y410 => area * 4,
        ColorFormat::YUV444 => area * 3,
        ColorFormat::NV12 => area * 3 / 2,
        _ => 0,
    };
    if total <= usize::MAX as u128 {
        Some(total as usize)
    } else {
        None
    }
}

/// Copies `rows` rows of `bytes` bytes each out of `data`, where row `r`
/// starts at `start + r * pitch`, to the front of `vec`, which is first
/// brought to a length of `total`.
fn copy_rows(
    vec: &mut Vec<u8>,
    data: &[u8],
    start: usize,
    pitch: usize,
    rows: usize,
    bytes: usize,
    total: usize,
)
    requires
        rows * bytes <= total,
        rows > 0 && bytes > 0 ==> start + cell(pitch as int, rows - 1, bytes as int) <= data@.len(),
    ensures
        final(vec)@.len() == total,
        forall|r: int, c: int|
            0 <= r < rows && 0 <= c < bytes ==> final(vec)@[#[trigger] cell(bytes as int, r, c)]
                == data@[start + cell(pitch as int, r, c)],
        forall|k: int|
            rows * bytes <= k < total ==> #[trigger] final(vec)@[k] == if k < old(vec)@.len() {
                old(vec)@[k]
            } else {
                0u8
            },
{
    let ghost before = vec@;
    vec.resize(total, 0u8);
    assert forall|k: int| 0 <= k < total implies #[trigger] vec@[k] == if k < before.len() {
        before[k]
    } else {
        0u8
    } by {
        if total <= before.len() {
            assert(vec@ == before.subrange(0, total as int));
        } else if k < before.len() {
            assert(vec@.subrange(0, before.len() as int)[k] == before[k]);
        } else {
            assert(cloned::<u8>(0u8, vec@[k]));
        }
    }
    if rows == 0 || bytes == 0 {
        assert(rows * bytes == 0) by (nonlinear_arith)
            requires
                rows == 0 || bytes == 0,
        ;
        return ;
    }
    let ghost resized = vec@;
    let limit: usize = data.len();
    let mut r: usize = 0;
    let mut dst: usize = 0;
    let mut src: usize = start;
    assert(cell(pitch as int, 0, 0) == 0) by (nonlinear_arith);
    assert(cell(pitch as int, 0, bytes as int) <= cell(pitch as int, rows - 1, bytes as int))
        by (nonlinear_arith)
        requires
            rows >= 1,
            pitch >= 0,
    ;
    while r < rows
        invariant
            0 < rows,
            0 < bytes,
            r <= rows,
            rows * bytes <= total,
            vec@.len() == total,
            dst == r * bytes,
            r < rows ==> src == start + cell(pitch as int, r as int, 0),
            start + cell(pitch as int, rows - 1, bytes as int) <= data@.len(),
            data@.len() == limit,
            forall|k: int|
                0 <= k < dst ==> #[trigger] vec@[k] == data@[start + cell(
                    pitch as int,
                    k / (bytes as int),
                    k % (bytes as int),
                )],
            forall|k: int| dst <= k < total ==> #[trigger] vec@[k] == resized[k],
        decreases rows - r,
    {
        proof {
            assert((r + 1) * bytes <= rows * bytes) by (nonlinear_arith)
                requires
                    r + 1 <= rows,
                    bytes >= 0,
            ;
            assert((r + 1) * bytes == r * bytes + bytes) by (nonlinear_arith);
            assert(cell(pitch as int, r as int, bytes as int) <= cell(
                pitch as int,
                rows - 1,
                bytes as int,
            )) by (nonlinear_arith)
                requires
                    r <= rows - 1,
                    pitch >= 0,
            ;
        }
        let mut c: usize = 0;
        while c < bytes
            invariant
                0 < bytes,
                r < rows,
                c <= bytes,
                vec@.len() == total,
                dst == r * bytes,
                dst + bytes <= total,
                src == start + cell(pitch as int, r as int, 0),
                src + bytes <= data@.len(),
                data@.len() == limit,
                forall|k: int|
                    0 <= k < dst + c ==> #[trigger] vec@[k] == data@[start + cell(
                        pitch as int,
                        k / (bytes as int),
                        k % (bytes as int),
                    )],
                forall|k: int| dst + c <= k < total ==> #[trigger] vec@[k] == resized[k],
            decreases bytes - c,
        {
            let value: u8 = data[src + c];
            proof {
                lemma_fundamental_div_mod_converse(dst + c, bytes as int, r as int, c as int);
            }
            vec.set(dst + c, value);
            c += 1;
        }
        dst += bytes;
        r += 1;
        if r < rows {
            proof {
                assert(cell(pitch as int, r as int, 0) == cell(pitch as int, r - 1, 0) + pitch)
                    by (nonlinear_arith);
                assert(cell(pitch as int, r as int, 0) <= cell(pitch as int, rows - 1, bytes as int))
                    by (nonlinear_arith)
                    requires
                        r <= rows - 1,
                        pitch >= 0,
                        bytes >= 0,
                ;
            }
            src += pitch;
        }
    }
    assert forall|r: int, c: int| 0 <= r < rows && 0 <= c < bytes implies vec@[#[trigger] cell(
        bytes as int,
        r,
        c,
    )] == data@[start + cell(pitch as int, r, c)] by {
        let k = cell(bytes as int, r, c);
        lemma_fundamental_div_mod_converse(k, bytes as int, r, c);
        assert((r + 1) * bytes <= rows * bytes) by (nonlinear_arith)
            requires
                r + 1 <= rows,
                bytes >= 0,
        ;
        assert((r + 1) * bytes == r * bytes + bytes) by (nonlinear_arith);
    }
}

/// Reads mapped textures into byte buffers and keeps track of the staging
/// texture that the GPU copies into.
#[derive(Clone, Copy, Debug, PartialEq, Eq, Structural)]
pub struct TextureReader {
    /// The description of the staging texture, if there is one.
    pub tex: Option<TextureDesc>,
}

impl TextureReader {
    /// A reader without a staging texture.
    pub fn new() -> (reader: Self)
        ensures
            reader.tex is None,
    {
        TextureReader { tex: None }
    }

    /// Whether the staging texture has to be created before a texture
    /// described by `desc` is read: when there is none yet, or when it is of
    /// another shape. From then on the reader counts on a staging texture of
    /// that shape.
    pub fn ensure_shape(&mut self, desc: TextureDesc) -> (create: bool)
        ensures
            create == (old(self).tex != Some(desc)),
            final(self).tex == Some(desc),
    {
        let same = match self.tex {
            Some(d) => d == desc,
            None => false,
        };
        self.tex = Some(desc);
        !same
    }

    /// Forgets the staging texture, after it could not be created.
    pub fn discard(&mut self)
        ensures
            final(self).tex is None,
    {
        self.tex = None;
    }

    /// The request for a staging texture that mirrors a source texture made
    /// with `source`: the same picture, readable by the CPU, bound to nothing.
    pub open spec fn staging_of(source: TextureRequest) -> TextureRequest {
        TextureRequest {
            usage: D3D11_USAGE_STAGING,
            bind_flags: 0,
            cpu_access_flags: D3D11_CPU_ACCESS_READ,
            misc_flags: 0,
            ..source
        }
    }

    /// Plans the staging texture for a source texture.
    pub fn staging_request(source: TextureRequest) -> (request: TextureRequest)
        ensures
            request == Self::staging_of(source),
    {
        TextureRequest {
            usage: D3D11_USAGE_STAGING,
            bind_flags: 0,
            cpu_access_flags: D3D11_CPU_ACCESS_READ,
            misc_flags: 0,
            ..source
        }
    }

    /// Whether `get_data` may be called for this texture: its format can be
    /// read, the buffer it needs can exist, and the mapped bytes hold every
    /// row.
    pub fn can_read(tex: &MappedTexture) -> (ok: bool)
        ensures
            ok == (tex.desc.format.readable() && tex.covers(tex.whole()) && buffer_len(
                tex.desc.format,
                tex.desc.width as int,
                tex.desc.height as int,
            ) <= usize::MAX),
    {
        Self::can_read_region(tex, Region { x: 0, y: 0, width: tex.desc.width, height: tex.desc.height })
    }

    /// Whether `get_region` may be called for this texture and region.
    pub fn can_read_region(tex: &MappedTexture, region: Region) -> (ok: bool)
        ensures
            ok == (tex.desc.format.readable() && tex.covers(region) && buffer_len(
                tex.desc.format,
                region.width as int,
                region.height as int,
            ) <= usize::MAX),
    {
        if !tex.desc.format.is_readable() {
            return false;
        }
        if buffer_size(tex.desc.format, region.width, region.height).is_none() {
            return false;
        }
        let (rows, bytes, shift) = extent(tex.desc.format, region);
        if rows == 0 || bytes == 0 {
            return true;
        }
        let last: u64 = (region.y as u64) + rows - 1;
        assert(last * tex.row_pitch <= 0x5_0000_0000 * 0xFFFF_FFFF) by (nonlinear_arith)
            requires
                0 <= last <= 0x5_0000_0000,
                tex.row_pitch <= 0xFFFF_FFFF,
        ;
        let start: u128 = (last as u128) * (tex.row_pitch as u128);
        let end: u128 = start + (shift as u128) + (bytes as u128);
        end <= tex.data.len() as u128
    }

    /// Copies the picture out of a mapped texture into `vec`. The buffer is
    /// brought to the size of the picture; its rows follow each other without
    /// gaps, whatever the row pitch of the texture.
    pub fn get_data(&self, vec: &mut Vec<u8>, tex: &MappedTexture)
        requires
            tex.desc.format.readable(),
            tex.covers(tex.whole()),
            buffer_len(tex.desc.format, tex.desc.width as int, tex.desc.height as int)
                <= usize::MAX,
        ensures
            tex.read_back(tex.whole(), old(vec)@, final(vec)@),
            final(vec)@.len() == buffer_len(
                tex.desc.format,
                tex.desc.width as int,
                tex.desc.height as int,
            ),
    {
        self.get_region(
            vec,
            tex,
            Region { x: 0, y: 0, width: tex.desc.width, height: tex.desc.height },
        );
    }

    /// Copies a region of the picture out of a mapped texture into `vec`:
    /// the rows from `region.y` on, each from the byte of column `region.x`
    /// on, as many rows and bytes as a picture of the size of the region has.
    pub fn get_region(&self, vec: &mut Vec<u8>, tex: &MappedTexture, region: Region)
        requires
            tex.desc.format.readable(),
            tex.covers(region),
            buffer_len(tex.desc.format, region.width as int, region.height as int) <= usize::MAX,
        ensures
            tex.read_back(region, old(vec)@, final(vec)@),
    {
        let format = tex.desc.format;
        proof {
            lemma_rows_fit(format, region.width as int, region.height as int);
        }
        let total: usize = match buffer_size(format, region.width, region.height) {
            Some(n) => n,
            None => 0,
        };
        let (rows, bytes, shift) = extent(format, region);
        if rows == 0 || bytes == 0 {
            assert(rows * bytes == 0) by (nonlinear_arith)
                requires
                    rows == 0 || bytes == 0,
            ;
            copy_rows(vec, tex.data, 0, 0, 0, 0, total);
            return ;
        }
        let ghost pitch = tex.row_pitch as int;
        proof {
            assert(cell(pitch, region.y + rows - 1, 0) == cell(pitch, region.y as int, 0) + cell(
                pitch,
                rows - 1,
                0,
            )) by (nonlinear_arith);
            assert(0 <= cell(pitch, region.y as int, 0) && 0 <= cell(pitch, rows - 1, 0))
                by (nonlinear_arith)
                requires
                    0 <= pitch,
                    0 <= region.y,
                    1 <= rows,
            ;
            assert(rows <= rows * bytes && bytes <= rows * bytes) by (nonlinear_arith)
                requires
                    rows >= 1,
                    bytes >= 1,
            ;
        }
        let limit: usize = tex.data.len();
        assert(region.y * pitch == cell(pitch, region.y as int, 0));
        assert(region.y * pitch + shift + bytes <= limit);
        let start: usize = (region.y as usize) * (tex.row_pitch as usize) + (shift as usize);
        copy_rows(
            vec,
            tex.data,
            start,
            tex.row_pitch as usize,
            rows as usize,
            bytes as usize,
            total,
        );
        proof {
            assert forall|r: int, c: int| 0 <= r < rows && 0 <= c < bytes implies vec@[#[trigger] cell(
                bytes as int,
                r,
                c,
            )] == tex.data@[cell(pitch, region.y + r, shift + c)] by {
                assert((region.y + r) * pitch == region.y * pitch + r * pitch)
                    by (nonlinear_arith);
                assert(start + cell(pitch, r, c) == cell(pitch, region.y + r, shift + c));
            }
        }
    }
}

/// The rows and the bytes per row that are read for a region, and the byte
/// at which the region begins in each row.
fn extent(format: ColorFormat, region: Region) -> (e: (u64, u64, u64))
    ensures
        e.0 == row_count(format, region.height as int),
        e.1 == row_bytes(format, region.width as int),
        e.2 == region.x * format.bytes_per_sample(),
        e.0 <= 0x3_0000_0000,
{
    let sample: u64 = if format.is_packed() {
        4
    } else if format.is_readable() {
        1
    } else {
        0
    };
    let rows: u64 = match format {
        ColorFormat::YUV444 => (region.height as u64) * 3,
        ColorFormat::NV12 => (region.height as u64) * 3 / 2,
        _ => if format.is_packed() {
            region.height as u64
        } else {
            0
        },
    };
    ((rows, (region.width as u64) * sample, (region.x as u64) * sample))
}

impl ColorFormat {
    /// Whether the format is packed with four bytes per pixel.
    pub fn is_packed(self) -> (r: bool)
        ensures
            r == self.is_packed4(),
    {
        match self {
            ColorFormat::ABGR8UNorm => true,
            ColorFormat::ARGB8UNorm => true,
            ColorFormat::AYUV => true,
            ColorFormat::ARGB10UNorm => true,
            ColorFormat::Y410 => true,
            _ => false,
        }
    }

    /// Whether the format stacks three full planes.
    pub fn is_stacked(self) -> (r: bool)
        ensures
            r == (self == ColorFormat::YUV444),
    {
        match self {
            ColorFormat::YUV444 => true,
            _ => false,
        }
    }
}

impl Default for TextureReader {
    fn default() -> (reader: Self)
        ensures
            reader.tex is None,
    {
        TextureReader { tex: None }
    }
}

} // verus!
