use pigment64::color::Color;
use pigment64::image::png_image::u8_to_u4;
use pigment64::{ImageFormat, ImageSize, ImageType, TextureLUT, IMAGE_TYPE_COUNT};

#[test]
fn tlut_size_of_each_image_size() {
    assert_eq!(ImageSize::Bits1.get_tlut_size(), Some(2));
    assert_eq!(ImageSize::Bits4.get_tlut_size(), Some(16));
    assert_eq!(ImageSize::Bits8.get_tlut_size(), Some(256));
    assert_eq!(ImageSize::Bits16.get_tlut_size(), Some(4096));
    assert_eq!(ImageSize::Bits32.get_tlut_size(), Some(65536));
    assert_eq!(ImageSize::DD.get_tlut_size(), None);
}

#[test]
fn size_and_format_of_each_image_type() {
    let expected = [
        (ImageType::I1, ImageSize::Bits1, ImageFormat::I),
        (ImageType::I4, ImageSize::Bits4, ImageFormat::I),
        (ImageType::I8, ImageSize::Bits8, ImageFormat::I),
        (ImageType::Ia4, ImageSize::Bits4, ImageFormat::Ia),
        (ImageType::Ia8, ImageSize::Bits8, ImageFormat::Ia),
        (ImageType::Ia16, ImageSize::Bits16, ImageFormat::Ia),
        (ImageType::Ci4, ImageSize::Bits4, ImageFormat::Ci),
        (ImageType::Ci8, ImageSize::Bits8, ImageFormat::Ci),
        (ImageType::Rgba16, ImageSize::Bits16, ImageFormat::Rgba),
        (ImageType::Rgba32, ImageSize::Bits32, ImageFormat::Rgba),
    ];
    for (t, size, format) in expected {
        assert_eq!(t.get_size(), size);
        assert_eq!(t.get_format(), format);
    }
}

#[test]
fn all_image_types_in_declaration_order() {
    let all = ImageType::all();
    assert_eq!(all.len(), IMAGE_TYPE_COUNT);
    for (i, t) in all.iter().enumerate() {
        assert_eq!(t.to_u8() as usize, i);
    }
    assert_eq!(all[0], ImageType::I1);
    assert_eq!(all[9], ImageType::Rgba32);
}

#[test]
fn image_size_numbers_round_trip() {
    assert_eq!(ImageSize::Bits1.to_u8(), 4);
    assert_eq!(ImageSize::Bits4.to_u8(), 0);
    assert_eq!(ImageSize::DD.to_u8(), 5);
    for v in 0..=255u8 {
        match ImageSize::try_from_u8(v) {
            Some(s) => assert_eq!(s.to_u8(), v),
            None => assert!(v > 5),
        }
    }
}

#[test]
fn image_format_numbers_round_trip() {
    assert_eq!(ImageFormat::Ci.to_u8(), 2);
    assert_eq!(ImageFormat::try_from_u8(4), Some(ImageFormat::I));
    for v in 0..=255u8 {
        match ImageFormat::try_from_u8(v) {
            Some(f) => assert_eq!(f.to_u8(), v),
            None => assert!(v > 4),
        }
    }
}

#[test]
fn image_type_numbers_round_trip() {
    for t in ImageType::all() {
        assert_eq!(ImageType::try_from_u8(t.to_u8()), Some(t));
    }
    assert_eq!(ImageType::try_from_u8(10), None);
    assert_eq!(ImageType::try_from_u8(7), Some(ImageType::Ci8));
}

#[test]
fn texture_lut_numbers_round_trip() {
    assert_eq!(TextureLUT::NoLut.to_u8(), 0);
    assert_eq!(TextureLUT::Rgba16.to_u8(), 2);
    assert_eq!(TextureLUT::Ia16.to_u8(), 3);
    assert_eq!(TextureLUT::try_from_u8(1), None);
    assert_eq!(TextureLUT::try_from_u8(3), Some(TextureLUT::Ia16));
    for l in [TextureLUT::NoLut, TextureLUT::Rgba16, TextureLUT::Ia16] {
        assert_eq!(TextureLUT::try_from_u8(l.to_u8()), Some(l));
    }
}

#[test]
fn color_packs_into_rgba5551() {
    assert_eq!(Color::RGBA(255, 255, 255, 255).to_u16(), 0xFFFF);
    assert_eq!(Color::RGBA(255, 0, 0, 254).to_u16(), 0xF800);
    assert_eq!(Color::RGBA(0, 0, 0, 0).to_u16(), 0);
    // (1 << 11) | (2 << 6) | (3 << 1) | 1
    assert_eq!(Color::RGB(8, 16, 24).to_u16(), 2183);
    assert_eq!(Color::RGB(7, 7, 7).to_u16(), 1);
}

#[test]
fn color_constructors_keep_channels() {
    let c = Color::RGBA(1, 2, 3, 4);
    assert_eq!((c.r, c.g, c.b, c.a), (1, 2, 3, 4));
    let d = Color::RGB(5, 6, 7);
    assert_eq!((d.r, d.g, d.b, d.a), (5, 6, 7, 255));
}

#[test]
fn top_nibble_of_a_byte() {
    assert_eq!(u8_to_u4(0xAB), 0x0A);
    assert_eq!(u8_to_u4(0x0F), 0);
    assert_eq!(u8_to_u4(0xFF), 0x0F);
}

#[test]
fn rgba5551_fields_hold_the_top_bits() {
    let v = Color::RGBA(200, 100, 50, 255).to_u16();
    assert_eq!(v >> 11, 200 >> 3);
    assert_eq!((v >> 6) & 0x1F, 100 >> 3);
    assert_eq!((v >> 1) & 0x1F, 50 >> 3);
    assert_eq!(v & 1, 1);
    assert_eq!(Color::RGBA(200, 100, 50, 128).to_u16() & 1, 0);
}
