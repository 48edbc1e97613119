use win_desktop_duplication::tex_reader::{buffer_size, MappedTexture, Region, TextureReader};
use win_desktop_duplication::texture::{ColorFormat, TextureDesc};
use win_desktop_duplication::{BufferRole, TextureRequest};

/// Mapped memory whose byte at row `r`, column `c` is a mix of both, with
/// 0xEE in the padding between the rows.
fn surface(rows: u32, row_bytes: u32, pitch: u32) -> Vec<u8> {
    let mut data = vec![0xEEu8; (rows * pitch) as usize];
    for r in 0..rows {
        for c in 0..row_bytes {
            data[(r * pitch + c) as usize] = (r * 16 + c) as u8;
        }
    }
    data
}

fn expect(rows: u32, row_bytes: u32) -> Vec<u8> {
    let mut out = Vec::new();
    for r in 0..rows {
        for c in 0..row_bytes {
            out.push((r * 16 + c) as u8);
        }
    }
    out
}

#[test]
fn packed_formats_need_four_bytes_per_pixel() {
    for format in [
        ColorFormat::ABGR8UNorm,
        ColorFormat::ARGB8UNorm,
        ColorFormat::AYUV,
        ColorFormat::ARGB10UNorm,
        ColorFormat::Y410,
    ] {
        assert!(format.is_packed());
        assert_eq!(buffer_size(format, 1920, 1080), Some(1920 * 1080 * 4));
        assert_eq!(buffer_size(format, 3, 5), Some(60));
        assert_eq!(buffer_size(format, 0, 5), Some(0));
    }
}

#[test]
fn planar_formats_need_one_byte_per_sample() {
    assert_eq!(buffer_size(ColorFormat::YUV444, 1920, 1080), Some(1920 * 1080 * 3));
    assert_eq!(buffer_size(ColorFormat::NV12, 1920, 1080), Some(1920 * 1080 * 3 / 2));
    assert_eq!(buffer_size(ColorFormat::NV12, 3, 3), Some(13));
    assert_eq!(buffer_size(ColorFormat::NV12, 3, 1), Some(4));
    assert_eq!(buffer_size(ColorFormat::NV12, 4, 2), Some(12));
}

#[test]
fn formats_that_cannot_be_read_need_nothing() {
    for format in [
        ColorFormat::Unknown,
        ColorFormat::YUV420,
        ColorFormat::ARGB16Float,
        ColorFormat::YUV444_10bit,
        ColorFormat::YUV420_10bit,
    ] {
        assert!(!format.is_readable());
        assert!(!format.is_packed());
        assert_eq!(buffer_size(format, 10, 10), Some(0));
    }
    for format in [
        ColorFormat::ABGR8UNorm,
        ColorFormat::ARGB8UNorm,
        ColorFormat::AYUV,
        ColorFormat::ARGB10UNorm,
        ColorFormat::Y410,
        ColorFormat::YUV444,
        ColorFormat::NV12,
    ] {
        assert!(format.is_readable());
    }
    assert!(!ColorFormat::YUV444.is_packed());
    assert!(!ColorFormat::NV12.is_packed());
}

#[test]
fn sizes_as_large_as_they_get() {
    let largest = buffer_size(ColorFormat::ABGR8UNorm, u32::MAX, u32::MAX);
    assert_eq!(largest, None);
    let large = buffer_size(ColorFormat::YUV444, 65536, 65536);
    assert_eq!(large, Some(3usize << 32));
}

#[test]
fn packed_picture_is_read_row_by_row() {
    let desc = TextureDesc { width: 3, height: 4, format: ColorFormat::ABGR8UNorm };
    let data = surface(4, 12, 16);
    let tex = MappedTexture { desc, row_pitch: 16, data: &data };
    assert!(TextureReader::can_read(&tex));
    let mut out = vec![9u8; 5];
    TextureReader::new().get_data(&mut out, &tex);
    assert_eq!(out.len(), 3 * 4 * 4);
    assert_eq!(out, expect(4, 12));
}

#[test]
fn stacked_planes_are_read_one_after_the_other() {
    let desc = TextureDesc { width: 5, height: 2, format: ColorFormat::YUV444 };
    let data = surface(6, 5, 8);
    let tex = MappedTexture { desc, row_pitch: 8, data: &data };
    assert!(TextureReader::can_read(&tex));
    let mut out = Vec::new();
    TextureReader::new().get_data(&mut out, &tex);
    assert_eq!(out.len(), 5 * 2 * 3);
    assert_eq!(out, expect(6, 5));
}

#[test]
fn semi_planar_picture_is_read_with_its_chroma_rows() {
    let desc = TextureDesc { width: 6, height: 4, format: ColorFormat::NV12 };
    let data = surface(6, 6, 8);
    let tex = MappedTexture { desc, row_pitch: 8, data: &data };
    assert!(TextureReader::can_read(&tex));
    let mut out = vec![1u8; 100];
    TextureReader::new().get_data(&mut out, &tex);
    assert_eq!(out.len(), 6 * 4 * 3 / 2);
    assert_eq!(out, expect(6, 6));
}

#[test]
fn semi_planar_picture_of_odd_height_keeps_what_lies_behind_its_rows() {
    let desc = TextureDesc { width: 3, height: 3, format: ColorFormat::NV12 };
    let data = surface(4, 3, 4);
    let tex = MappedTexture { desc, row_pitch: 4, data: &data };
    let reader = TextureReader::new();

    let mut out = Vec::new();
    reader.get_data(&mut out, &tex);
    let mut expected = expect(4, 3);
    expected.push(0);
    assert_eq!(out, expected);

    let mut out = vec![0x55u8; 40];
    reader.get_data(&mut out, &tex);
    let mut expected = expect(4, 3);
    expected.push(0x55);
    assert_eq!(out.len(), 13);
    assert_eq!(out, expected);
}

#[test]
fn picture_without_padding_is_read_as_it_is() {
    let desc = TextureDesc { width: 2, height: 2, format: ColorFormat::ARGB8UNorm };
    let data: Vec<u8> = (0..16).collect();
    let tex = MappedTexture { desc, row_pitch: 8, data: &data };
    let mut out = Vec::new();
    TextureReader::new().get_data(&mut out, &tex);
    assert_eq!(out, data);
}

#[test]
fn last_row_needs_no_padding_behind_it() {
    let desc = TextureDesc { width: 1, height: 2, format: ColorFormat::ARGB8UNorm };
    let data: Vec<u8> = (0..12).collect();
    let tex = MappedTexture { desc, row_pitch: 8, data: &data };
    assert!(TextureReader::can_read(&tex));
    let mut out = Vec::new();
    TextureReader::new().get_data(&mut out, &tex);
    assert_eq!(out, vec![0, 1, 2, 3, 8, 9, 10, 11]);
    let short = MappedTexture { desc, row_pitch: 8, data: &data[..11] };
    assert!(!TextureReader::can_read(&short));
}

#[test]
fn empty_pictures_are_read_as_nothing() {
    let data: Vec<u8> = Vec::new();
    for (width, height) in [(0u32, 4u32), (4, 0), (0, 0)] {
        let desc = TextureDesc { width, height, format: ColorFormat::AYUV };
        let tex = MappedTexture { desc, row_pitch: 0, data: &data };
        assert!(TextureReader::can_read(&tex));
        let mut out = vec![3u8; 7];
        TextureReader::new().get_data(&mut out, &tex);
        assert!(out.is_empty());
    }
}

#[test]
fn textures_that_cannot_be_read_are_told_apart() {
    let data = vec![0u8; 64];
    let float = TextureDesc { width: 2, height: 2, format: ColorFormat::ARGB16Float };
    assert!(!TextureReader::can_read(&MappedTexture { desc: float, row_pitch: 16, data: &data }));
    let wide = TextureDesc { width: 5, height: 4, format: ColorFormat::ABGR8UNorm };
    assert!(!TextureReader::can_read(&MappedTexture { desc: wide, row_pitch: 16, data: &data }));
    let fits = TextureDesc { width: 4, height: 4, format: ColorFormat::ABGR8UNorm };
    assert!(TextureReader::can_read(&MappedTexture { desc: fits, row_pitch: 16, data: &data }));
    let high = TextureDesc { width: 4, height: 5, format: ColorFormat::ABGR8UNorm };
    assert!(!TextureReader::can_read(&MappedTexture { desc: high, row_pitch: 16, data: &data }));
}

#[test]
fn region_of_a_packed_picture() {
    let desc = TextureDesc { width: 4, height: 4, format: ColorFormat::ABGR8UNorm };
    let data = surface(4, 16, 16);
    let tex = MappedTexture { desc, row_pitch: 16, data: &data };
    let region = Region { x: 1, y: 2, width: 2, height: 2 };
    assert!(TextureReader::can_read_region(&tex, region));
    let mut out = Vec::new();
    TextureReader::new().get_region(&mut out, &tex, region);
    assert_eq!(out.len(), 2 * 2 * 4);
    let mut expected = Vec::new();
    for r in 2..4u32 {
        for c in 4..12u32 {
            expected.push((r * 16 + c) as u8);
        }
    }
    assert_eq!(out, expected);
}

#[test]
fn region_of_a_planar_picture() {
    let desc = TextureDesc { width: 8, height: 2, format: ColorFormat::YUV444 };
    let data = surface(6, 8, 8);
    let tex = MappedTexture { desc, row_pitch: 8, data: &data };
    let region = Region { x: 3, y: 1, width: 4, height: 1 };
    assert!(TextureReader::can_read_region(&tex, region));
    let mut out = Vec::new();
    TextureReader::new().get_region(&mut out, &tex, region);
    let mut expected = Vec::new();
    for r in 1..4u32 {
        for c in 3..7u32 {
            expected.push((r * 16 + c) as u8);
        }
    }
    assert_eq!(out, expected);
}

#[test]
fn region_that_leaves_the_mapped_memory_is_told_apart() {
    let desc = TextureDesc { width: 4, height: 4, format: ColorFormat::ABGR8UNorm };
    let data = surface(4, 16, 16);
    let tex = MappedTexture { desc, row_pitch: 16, data: &data };
    assert!(TextureReader::can_read_region(&tex, Region { x: 0, y: 0, width: 4, height: 4 }));
    assert!(!TextureReader::can_read_region(&tex, Region { x: 1, y: 3, width: 4, height: 1 }));
    assert!(!TextureReader::can_read_region(&tex, Region { x: 0, y: 1, width: 4, height: 4 }));
    assert!(TextureReader::can_read_region(&tex, Region { x: 3, y: 3, width: 1, height: 1 }));
    assert!(TextureReader::can_read_region(&tex, Region { x: 9, y: 9, width: 0, height: 1 }));
}

#[test]
fn whole_picture_is_the_region_at_the_origin() {
    let desc = TextureDesc { width: 3, height: 2, format: ColorFormat::AYUV };
    let data = surface(2, 12, 12);
    let tex = MappedTexture { desc, row_pitch: 12, data: &data };
    let reader = TextureReader::new();
    let mut whole = Vec::new();
    reader.get_data(&mut whole, &tex);
    let mut region = Vec::new();
    reader.get_region(&mut region, &tex, Region { x: 0, y: 0, width: 3, height: 2 });
    assert_eq!(whole, region);
}

#[test]
fn staging_texture_is_made_when_the_shape_changes() {
    let mut reader = TextureReader::new();
    assert_eq!(reader.tex, None);
    let small = TextureDesc { width: 640, height: 480, format: ColorFormat::ABGR8UNorm };
    let large = TextureDesc { width: 1920, height: 1080, format: ColorFormat::ABGR8UNorm };
    assert!(reader.ensure_shape(small));
    assert_eq!(reader.tex, Some(small));
    assert!(!reader.ensure_shape(small));
    assert!(!reader.ensure_shape(small));
    assert!(reader.ensure_shape(large));
    assert!(!reader.ensure_shape(large));
    let other = TextureDesc { format: ColorFormat::ARGB8UNorm, ..large };
    assert!(reader.ensure_shape(other));
    reader.discard();
    assert_eq!(reader.tex, None);
    assert!(reader.ensure_shape(other));
    assert_eq!(TextureReader::default().tex, None);
}

#[test]
fn staging_texture_mirrors_its_source() {
    let desc = TextureDesc { width: 640, height: 480, format: ColorFormat::ABGR8UNorm };
    let source = TextureRequest::create_texture(desc, BufferRole::Stable);
    let staging = TextureReader::staging_request(source);
    assert_eq!(
        staging,
        TextureRequest {
            width: 640,
            height: 480,
            mip_levels: 1,
            array_size: 1,
            format: 87,
            sample_count: 1,
            sample_quality: 0,
            usage: 3,
            bind_flags: 0,
            cpu_access_flags: 131072,
            misc_flags: 0,
        }
    );
}

#[test]
fn test_texture_reader() {
    let desc = TextureDesc { width: 12, height: 4, format: ColorFormat::ABGR8UNorm };
    let mut reader = TextureReader::new();
    let mut data = Vec::<u8>::new();
    let mut counter = 0;
    for secs in 0..5u8 {
        let mapped: Vec<u8> = (0..64 * 4).map(|i| (i as u8).wrapping_add(secs)).collect();
        let tex = MappedTexture { desc, row_pitch: 64, data: &mapped };
        let created = reader.ensure_shape(tex.desc);
        assert_eq!(created, secs == 0);
        assert!(TextureReader::can_read(&tex));
        reader.get_data(&mut data, &tex);
        let pitch = tex.desc.width as usize * 4;
        println!("pitch: {}", pitch);
        for i in 0..4 {
            let mut line = String::new();
            for j in 0..12 {
                let value = data[pitch * (i + 1) - (12 - j)];
                line.push_str(&format!("{}\t", value));
                assert_eq!(value, ((i * 64 + 36 + j) as u8).wrapping_add(secs));
            }
            println!("{}", line);
        }
        counter += 1;
        println!("fps: {}", counter);
    }
    assert_eq!(data.len(), 12 * 4 * 4);
}

#[test]
fn packed_ten_bit_pictures_are_read_like_the_other_packed_ones() {
    for format in [ColorFormat::ARGB10UNorm, ColorFormat::Y410] {
        let desc = TextureDesc { width: 3, height: 4, format };
        let data = surface(4, 12, 16);
        let tex = MappedTexture { desc, row_pitch: 16, data: &data };
        assert!(TextureReader::can_read(&tex));
        let mut out = vec![7u8; 100];
        TextureReader::new().get_data(&mut out, &tex);
        assert_eq!(out.len(), 3 * 4 * 4);
        assert_eq!(out, expect(4, 12));

        let eight_bit = MappedTexture {
            desc: TextureDesc { format: ColorFormat::ABGR8UNorm, ..desc },
            row_pitch: 16,
            data: &data,
        };
        let mut same = Vec::new();
        TextureReader::new().get_data(&mut same, &eight_bit);
        assert_eq!(out, same);

        let region = Region { x: 1, y: 1, width: 2, height: 2 };
        assert!(TextureReader::can_read_region(&tex, region));
        let mut part = Vec::new();
        TextureReader::new().get_region(&mut part, &tex, region);
        let mut expected = Vec::new();
        for r in 1..3u32 {
            for c in 4..12u32 {
                expected.push((r * 16 + c) as u8);
            }
        }
        assert_eq!(part, expected);
    }
}

#[test]
fn frames_of_a_ten_bit_session_can_be_read() {
    let desc = TextureDesc::from_raw(1920, 1080, 24);
    assert_eq!(desc.format, ColorFormat::ARGB10UNorm);
    assert!(desc.format.is_readable());
    assert_eq!(buffer_size(desc.format, desc.width, desc.height), Some(1920 * 1080 * 4));
    let float = TextureDesc::from_raw(1920, 1080, 10);
    assert_eq!(float.format, ColorFormat::ARGB16Float);
    assert!(!float.format.is_readable());
}
