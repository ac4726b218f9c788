use pigment64::image::texel::palette_to_rgba16;
use pigment64::{create_palette_from_png, BitDepth, ColorType, Error, ImageType, PNGImage};

fn image(data: Vec<u8>, color_type: ColorType, bit_depth: BitDepth, width: u32, height: u32) -> PNGImage {
    PNGImage { data, color_type, bit_depth, width, height }
}

fn assert_unsupported(res: Result<(), Error>, color: ColorType, depth: BitDepth, target: ImageType) {
    match res {
        Err(Error::UnsupportedPngConversion { color: c, depth: d, target_format: t }) => {
            assert_eq!(c, color);
            assert_eq!(d, depth);
            assert_eq!(t, target);
        }
        other => panic!("expected an unsupported conversion, got {:?}", other),
    }
}

fn png_with_palette(palette: Option<Vec<u8>>, trns: Option<Vec<u8>>) -> Vec<u8> {
    let mut out = Vec::new();
    {
        let mut encoder = png::Encoder::new(&mut out, 2, 1);
        match palette {
            Some(p) => {
                encoder.set_color(png::ColorType::Indexed);
                encoder.set_palette(p);
            }
            None => encoder.set_color(png::ColorType::Grayscale),
        }
        if let Some(t) = trns {
            encoder.set_trns(t);
        }
        encoder.set_depth(png::BitDepth::Eight);
        let mut writer = encoder.write_header().unwrap();
        writer.write_image_data(&[0, 1]).unwrap();
    }
    out
}

#[test]
fn flip_grayscale_in_each_direction() {
    let img = image(vec![1, 2, 3, 4, 5, 6], ColorType::Grayscale, BitDepth::Eight, 3, 2);
    assert_eq!(img.flip(false, false).data, vec![1, 2, 3, 4, 5, 6]);
    assert_eq!(img.flip(true, false).data, vec![3, 2, 1, 6, 5, 4]);
    assert_eq!(img.flip(false, true).data, vec![4, 5, 6, 1, 2, 3]);
    assert_eq!(img.flip(true, true).data, vec![6, 5, 4, 3, 2, 1]);
    let f = img.flip(true, false);
    assert_eq!((f.width, f.height, f.color_type, f.bit_depth), (3, 2, ColorType::Grayscale, BitDepth::Eight));
}

#[test]
fn flip_moves_whole_rgb_pixels() {
    let img = image(vec![1, 2, 3, 4, 5, 6], ColorType::Rgb, BitDepth::Eight, 2, 1);
    assert_eq!(img.flip(true, false).data, vec![4, 5, 6, 1, 2, 3]);
    assert_eq!(img.flip(false, true).data, vec![1, 2, 3, 4, 5, 6]);
}

#[test]
fn flip_zeroes_bytes_past_the_pixels() {
    let img = image(vec![1, 2, 9, 9], ColorType::Grayscale, BitDepth::Eight, 2, 1);
    assert_eq!(img.flip(true, false).data, vec![2, 1, 0, 0]);
    let empty = image(vec![7, 7], ColorType::Rgba, BitDepth::Eight, 0, 5);
    assert_eq!(empty.flip(true, true).data, vec![0, 0]);
}

#[test]
fn flip_twice_gives_the_image_back() {
    let img = image((0..24).collect(), ColorType::GrayscaleAlpha, BitDepth::Eight, 3, 4);
    for fx in [false, true] {
        for fy in [false, true] {
            assert_eq!(img.flip(fx, fy).flip(fx, fy).data, img.data);
        }
    }
    assert_eq!(img.flip(true, false).flip(false, true).data, img.flip(true, true).data);
}

#[test]
fn ci8_of_indexed_eight_bit() {
    let img = image(vec![5, 6, 7], ColorType::Indexed, BitDepth::Eight, 3, 1);
    let mut out = vec![1];
    img.as_ci8(&mut out).unwrap();
    assert_eq!(out, vec![1, 5, 6, 7]);
    let bad = image(vec![5, 6], ColorType::Indexed, BitDepth::Four, 4, 1);
    let mut out = Vec::new();
    assert_unsupported(bad.as_ci8(&mut out), ColorType::Indexed, BitDepth::Four, ImageType::Ci8);
    assert!(out.is_empty());
}

#[test]
fn ci4_packs_eight_bit_indices() {
    let img = image(vec![0x1, 0x2, 0x3, 0xF, 0x9], ColorType::Indexed, BitDepth::Eight, 5, 1);
    let mut out = Vec::new();
    img.as_ci4(&mut out).unwrap();
    assert_eq!(out, vec![0x12, 0x3F]);
    let four = image(vec![0xAB], ColorType::Indexed, BitDepth::Four, 2, 1);
    let mut out = Vec::new();
    four.as_ci4(&mut out).unwrap();
    assert_eq!(out, vec![0xAB]);
    let two = image(vec![0xAB], ColorType::Indexed, BitDepth::Two, 4, 1);
    assert_unsupported(two.as_ci4(&mut Vec::new()), ColorType::Indexed, BitDepth::Two, ImageType::Ci4);
    let rgb = image(vec![0; 3], ColorType::Rgb, BitDepth::Eight, 1, 1);
    assert_unsupported(rgb.as_ci4(&mut Vec::new()), ColorType::Rgb, BitDepth::Eight, ImageType::Ci4);
}

#[test]
fn i1_sets_a_bit_for_each_bright_pixel() {
    let img = image(vec![0, 128, 127, 255, 200, 0, 0, 1, 9], ColorType::Grayscale, BitDepth::Eight, 9, 1);
    let mut out = Vec::new();
    img.as_i1(&Vec::new(), &mut out).unwrap();
    assert_eq!(out, vec![0b0101_1000]);
    let one = image(vec![0xA5], ColorType::Grayscale, BitDepth::One, 8, 1);
    let mut out = Vec::new();
    one.as_i1(&Vec::new(), &mut out).unwrap();
    assert_eq!(out, vec![0xA5]);
}

#[test]
fn i1_of_rgba_uses_intensities() {
    let img = image(vec![0; 32], ColorType::Rgba, BitDepth::Eight, 8, 1);
    let luma = vec![255, 0, 255, 0, 0, 0, 0, 128];
    let mut out = Vec::new();
    img.as_i1(&luma, &mut out).unwrap();
    assert_eq!(out, vec![0b1010_0001]);
}

#[test]
fn i1_error_names_i8() {
    let img = image(vec![1, 2], ColorType::GrayscaleAlpha, BitDepth::Eight, 1, 1);
    let mut out = vec![3];
    assert_unsupported(img.as_i1(&Vec::new(), &mut out), ColorType::GrayscaleAlpha, BitDepth::Eight, ImageType::I8);
    assert_eq!(out, vec![3]);
}

#[test]
fn i4_of_each_format() {
    let gray8 = image(vec![0x12, 0x34, 0xFF], ColorType::Grayscale, BitDepth::Eight, 3, 1);
    let mut out = Vec::new();
    gray8.as_i4(&Vec::new(), &mut out).unwrap();
    assert_eq!(out, vec![0x23]);

    let gray4 = image(vec![0x77], ColorType::Grayscale, BitDepth::Four, 2, 1);
    let mut out = Vec::new();
    gray4.as_i4(&Vec::new(), &mut out).unwrap();
    assert_eq!(out, vec![0x77]);

    let rgba = image(vec![0; 8], ColorType::Rgba, BitDepth::Eight, 2, 1);
    let mut out = Vec::new();
    rgba.as_i4(&vec![0xAB, 0xCD], &mut out).unwrap();
    assert_eq!(out, vec![0xAC]);

    let rgb = image(vec![0; 6], ColorType::Rgb, BitDepth::Eight, 2, 1);
    let mut out = Vec::new();
    rgb.as_i4(&vec![0x10, 0xF0], &mut out).unwrap();
    assert_eq!(out, vec![0x1F]);

    let ga = image(vec![0; 4], ColorType::GrayscaleAlpha, BitDepth::Eight, 2, 1);
    assert_unsupported(ga.as_i4(&Vec::new(), &mut Vec::new()), ColorType::GrayscaleAlpha, BitDepth::Eight, ImageType::I4);
}

#[test]
fn i8_of_each_format() {
    let gray4 = image(vec![0x1, 0x2, 0x3], ColorType::Grayscale, BitDepth::Four, 6, 1);
    let mut out = Vec::new();
    gray4.as_i8(&Vec::new(), &mut out).unwrap();
    assert_eq!(out, vec![0x12]);

    let rgb = image(vec![0; 7], ColorType::Rgb, BitDepth::Eight, 2, 1);
    let mut out = Vec::new();
    rgb.as_i8(&vec![40, 50], &mut out).unwrap();
    assert_eq!(out, vec![40, 50]);

    let rgba = image(vec![0; 4], ColorType::Rgba, BitDepth::Eight, 1, 1);
    let mut out = Vec::new();
    rgba.as_i8(&vec![99], &mut out).unwrap();
    assert_eq!(out, vec![99]);

    let indexed = image(vec![0; 4], ColorType::Indexed, BitDepth::Eight, 4, 1);
    assert_unsupported(indexed.as_i8(&Vec::new(), &mut Vec::new()), ColorType::Indexed, BitDepth::Eight, ImageType::I8);
}

#[test]
fn ia4_of_each_format() {
    let ga = image(vec![0xFF, 200, 0x20, 10], ColorType::GrayscaleAlpha, BitDepth::Eight, 2, 1);
    let mut out = Vec::new();
    ga.as_ia4(&Vec::new(), &mut out).unwrap();
    assert_eq!(out, vec![0xF2]);

    let rgba = image(vec![0, 0, 0, 128, 0, 0, 0, 127], ColorType::Rgba, BitDepth::Eight, 2, 1);
    let mut out = Vec::new();
    rgba.as_ia4(&vec![0x40, 0xE0], &mut out).unwrap();
    // high: (0x40 >> 5) << 1 | 1 = 0b0101, low: (0xE0 >> 5) << 1 | 0 = 0b1110
    assert_eq!(out, vec![0x5E]);

    let gray = image(vec![0; 4], ColorType::Grayscale, BitDepth::Eight, 4, 1);
    assert_unsupported(gray.as_ia4(&Vec::new(), &mut Vec::new()), ColorType::Grayscale, BitDepth::Eight, ImageType::Ia4);
}

#[test]
fn ia8_of_each_format() {
    let ga = image(vec![0x12, 0x3F], ColorType::GrayscaleAlpha, BitDepth::Eight, 1, 1);
    let mut out = Vec::new();
    ga.as_ia8(&Vec::new(), &mut out).unwrap();
    assert_eq!(out, vec![0x2F]);

    let rgba = image(vec![0, 0, 0, 0xCD], ColorType::Rgba, BitDepth::Eight, 1, 1);
    let mut out = Vec::new();
    rgba.as_ia8(&vec![0xAB], &mut out).unwrap();
    assert_eq!(out, vec![0xAC]);

    let rgb = image(vec![0; 3], ColorType::Rgb, BitDepth::Eight, 1, 1);
    assert_unsupported(rgb.as_ia8(&vec![0], &mut Vec::new()), ColorType::Rgb, BitDepth::Eight, ImageType::Ia8);
}

#[test]
fn ia16_of_each_format() {
    let ga = image(vec![1, 2, 3, 4], ColorType::GrayscaleAlpha, BitDepth::Eight, 2, 1);
    let mut out = Vec::new();
    ga.as_ia16(&Vec::new(), &mut out).unwrap();
    assert_eq!(out, vec![1, 2, 3, 4]);

    let rgba = image(vec![0, 0, 0, 7, 0, 0, 0, 8], ColorType::Rgba, BitDepth::Eight, 2, 1);
    let mut out = Vec::new();
    rgba.as_ia16(&vec![9, 10], &mut out).unwrap();
    assert_eq!(out, vec![9, 7, 10, 8]);

    let ga16 = image(vec![0; 4], ColorType::GrayscaleAlpha, BitDepth::Sixteen, 1, 1);
    assert_unsupported(ga16.as_ia16(&Vec::new(), &mut Vec::new()), ColorType::GrayscaleAlpha, BitDepth::Sixteen, ImageType::Ia16);
}

#[test]
fn rgba16_writes_big_endian_texels() {
    let img = image(vec![255, 255, 255, 255, 8, 16, 24, 0], ColorType::Rgba, BitDepth::Eight, 2, 1);
    let mut out = Vec::new();
    img.as_rgba16(&mut out).unwrap();
    // 8, 16, 24, 0 -> (1 << 11) | (2 << 6) | (3 << 1) = 0x0886
    assert_eq!(out, vec![0xFF, 0xFF, 0x08, 0x86]);
    let rgb = image(vec![0; 3], ColorType::Rgb, BitDepth::Eight, 1, 1);
    assert_unsupported(rgb.as_rgba16(&mut Vec::new()), ColorType::Rgb, BitDepth::Eight, ImageType::Rgba16);
}

#[test]
fn rgba32_keeps_the_data() {
    let img = image(vec![1, 2, 3, 4], ColorType::Rgba, BitDepth::Eight, 1, 1);
    let mut out = Vec::new();
    img.as_rgba32(&mut out).unwrap();
    assert_eq!(out, vec![1, 2, 3, 4]);
    let rgba16 = image(vec![0; 8], ColorType::Rgba, BitDepth::Sixteen, 1, 1);
    assert_unsupported(rgba16.as_rgba32(&mut Vec::new()), ColorType::Rgba, BitDepth::Sixteen, ImageType::Rgba32);
}

#[test]
fn native_dispatches_to_each_conversion() {
    let img = image(vec![0x10, 0x20, 0x30, 0x40, 0x50, 0x60, 0x70, 0x80], ColorType::Rgba, BitDepth::Eight, 2, 1);
    let luma = vec![0x33, 0x66];
    for t in ImageType::all() {
        let mut direct = Vec::new();
        let r1 = match t {
            ImageType::I1 => img.as_i1(&luma, &mut direct),
            ImageType::I4 => img.as_i4(&luma, &mut direct),
            ImageType::I8 => img.as_i8(&luma, &mut direct),
            ImageType::Ia4 => img.as_ia4(&luma, &mut direct),
            ImageType::Ia8 => img.as_ia8(&luma, &mut direct),
            ImageType::Ia16 => img.as_ia16(&luma, &mut direct),
            ImageType::Ci4 => img.as_ci4(&mut direct),
            ImageType::Ci8 => img.as_ci8(&mut direct),
            ImageType::Rgba16 => img.as_rgba16(&mut direct),
            ImageType::Rgba32 => img.as_rgba32(&mut direct),
        };
        let mut native = Vec::new();
        let r2 = img.as_native(&luma, &mut native, t);
        assert_eq!(r1.is_ok(), r2.is_ok());
        assert_eq!(direct, native);
    }
}

#[test]
fn png_round_trip() {
    let img = image(vec![1, 2, 3, 4, 5, 6, 7, 8], ColorType::Rgba, BitDepth::Eight, 2, 1);
    let mut bytes = vec![];
    img.as_png(&mut bytes).unwrap();
    assert_eq!(&bytes[1..4], b"PNG");
    let back = PNGImage::read(&bytes).unwrap();
    assert_eq!(back.data, img.data);
    assert_eq!(back.color_type, ColorType::Rgba);
    assert_eq!(back.bit_depth, BitDepth::Eight);
    assert_eq!((back.width, back.height), (2, 1));
}

#[test]
fn png_read_of_grayscale_alpha() {
    let img = image(vec![9, 8, 7, 6, 5, 4], ColorType::GrayscaleAlpha, BitDepth::Eight, 1, 3);
    let mut bytes = vec![];
    img.as_png(&mut bytes).unwrap();
    let back = PNGImage::read(&bytes).unwrap();
    assert_eq!(back.data, vec![9, 8, 7, 6, 5, 4]);
    assert_eq!(back.color_type, ColorType::GrayscaleAlpha);
    assert_eq!((back.width, back.height), (1, 3));
}

#[test]
fn png_read_of_garbage_fails() {
    assert!(matches!(PNGImage::read(&[1, 2, 3]), Err(Error::PngDecoding(_))));
}

#[test]
fn png_write_of_wrong_length_fails() {
    let img = image(vec![1, 2, 3], ColorType::Rgba, BitDepth::Eight, 2, 1);
    let mut out = vec![5];
    assert!(matches!(img.as_png(&mut out), Err(Error::PngEncoding(_))));
    // The signature and header are written before the data is refused, and the
    // encoder's writer ends the file when it is dropped.
    assert_eq!(&out[..9], &[5, 137, 80, 78, 71, 13, 10, 26, 10]);
    assert_eq!(&out[out.len() - 8..out.len() - 4], b"IEND");
}

#[test]
fn from_decoded_checks_the_numbers() {
    let img = PNGImage::from_decoded(vec![1], 3, 8, 1, 1).unwrap();
    assert_eq!(img.color_type, ColorType::Indexed);
    assert_eq!(img.bit_depth, BitDepth::Eight);
    assert!(PNGImage::from_decoded(vec![1], 1, 8, 1, 1).is_none());
    assert!(PNGImage::from_decoded(vec![1], 3, 3, 1, 1).is_none());
}

#[test]
fn color_type_numbers_and_samples() {
    assert_eq!(ColorType::Rgba.code(), 6);
    assert_eq!(ColorType::from_code(4), Some(ColorType::GrayscaleAlpha));
    assert_eq!(ColorType::from_code(1), None);
    assert_eq!(ColorType::Rgb.samples(), 3);
    assert_eq!(ColorType::Rgba.samples(), 4);
    assert_eq!(ColorType::GrayscaleAlpha.samples(), 2);
    assert_eq!(ColorType::Indexed.samples(), 1);
    assert_eq!(BitDepth::Sixteen.code(), 16);
    assert_eq!(BitDepth::from_code(4), Some(BitDepth::Four));
    assert_eq!(BitDepth::from_code(3), None);
}

#[test]
fn palette_with_transparency() {
    let bytes = png_with_palette(Some(vec![255, 255, 255, 8, 16, 24, 1, 2, 3]), Some(vec![255, 0]));
    let mut out = Vec::new();
    create_palette_from_png(&bytes, &mut out).unwrap();
    assert_eq!(out, vec![0xFF, 0xFF, 0x08, 0x86]);
}

#[test]
fn palette_without_transparency_is_opaque() {
    let bytes = png_with_palette(Some(vec![255, 255, 255, 8, 16, 24]), None);
    let mut out = Vec::new();
    create_palette_from_png(&bytes, &mut out).unwrap();
    assert_eq!(out, vec![0xFF, 0xFF, 0x08, 0x87]);
}

#[test]
fn palette_missing_is_an_error() {
    let bytes = png_with_palette(None, None);
    let mut out = Vec::new();
    assert!(matches!(create_palette_from_png(&bytes, &mut out), Err(Error::MissingPngPalette)));
    assert!(matches!(create_palette_from_png(&[0, 1], &mut out), Err(Error::PngDecoding(_))));
    assert!(out.is_empty());
}

#[test]
fn palette_table_directly() {
    let mut out = Vec::new();
    palette_to_rgba16(&[0, 0, 0, 255, 255, 255, 9], Some(&[0]), &mut out);
    assert_eq!(out, vec![0x00, 0x00]);
    let mut out = Vec::new();
    palette_to_rgba16(&[0, 0, 0, 255, 255, 255], None, &mut out);
    assert_eq!(out, vec![0x00, 0x01, 0xFF, 0xFF]);
}

#[test]
fn png_sizes_fit_only_where_the_encoder_can_count() {
    let small = image(vec![0; 8], ColorType::Rgba, BitDepth::Eight, 2, 1);
    assert!(small.png_sizes_fit());
    let huge = image(Vec::new(), ColorType::Rgba, BitDepth::Sixteen, u32::MAX, u32::MAX);
    assert!(!huge.png_sizes_fit());
    let indexed = image(Vec::new(), ColorType::Indexed, BitDepth::Eight, u32::MAX, u32::MAX);
    assert!(indexed.png_sizes_fit());
    let invalid = image(Vec::new(), ColorType::Rgb, BitDepth::One, u32::MAX, u32::MAX);
    assert!(invalid.png_sizes_fit());
    let gray = image(Vec::new(), ColorType::Grayscale, BitDepth::One, u32::MAX, u32::MAX);
    assert_eq!(gray.png_sizes_fit(), (u32::MAX as u128 / 8 + 1) * u32::MAX as u128 <= usize::MAX as u128);
}
