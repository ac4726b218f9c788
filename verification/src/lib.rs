//! Conversion of PNG images into the native texture formats of the N64
//! (intensity, intensity-alpha, colour-indexed and RGBA formats of several
//! bit depths), and the tables that go with them.
use vstd::prelude::*;

pub mod color;
pub mod image;

pub use crate::color::Color;
pub use crate::image::png_image::{BitDepth, ColorType, PNGImage, create_palette_from_png};

verus! {

/// Declares `std::io::Error` so that [`Error`] can carry it.
#[verifier::external_type_specification]
#[verifier::external_body]
pub struct ExIoError(std::io::Error);

/// Declares the error of the `png` crate's encoder.
#[verifier::external_type_specification]
#[verifier::external_body]
pub struct ExPngEncodingError(png::EncodingError);

/// Declares the error of the `png` crate's decoder.
#[verifier::external_type_specification]
#[verifier::external_body]
pub struct ExPngDecodingError(png::DecodingError);

/// The errors of this library.
#[derive(Debug)]
#[non_exhaustive]
pub enum Error {
    InvalidSizeForTlut(ImageSize),
    MissingTlut,
    UnsupportedTlutMode(TextureLUT),
    TlutIndexOutOfBounds,
    Io(std::io::Error),
    PngEncoding(png::EncodingError),
    PngDecoding(png::DecodingError),
    MissingPngPalette,
    UnsupportedPngConversion { color: ColorType, depth: BitDepth, target_format: ImageType },
    PaletteConversionError,
}

/// The number of bits of one texel.
#[derive(Copy, Clone, Debug, PartialEq, Eq, Hash, Structural)]
pub enum ImageSize {
    Bits1,
    Bits4,
    Bits8,
    Bits16,
    Bits32,
    DD,
}

impl ImageSize {
    /// The number that stands for this size in the texture format's bit fields.
    pub open spec fn spec_to_u8(self) -> u8 {
        match self {
            ImageSize::Bits1 => 4,
            ImageSize::Bits4 => 0,
            ImageSize::Bits8 => 1,
            ImageSize::Bits16 => 2,
            ImageSize::Bits32 => 3,
            ImageSize::DD => 5,
        }
    }

    /// The size that a number stands for, if any.
    pub open spec fn spec_try_from_u8(v: u8) -> Option<ImageSize> {
        if v == 4 {
            Some(ImageSize::Bits1)
        } else if v == 0 {
            Some(ImageSize::Bits4)
        } else if v == 1 {
            Some(ImageSize::Bits8)
        } else if v == 2 {
            Some(ImageSize::Bits16)
        } else if v == 3 {
            Some(ImageSize::Bits32)
        } else if v == 5 {
            Some(ImageSize::DD)
        } else {
            None
        }
    }

    /// The number that stands for this size.
    pub fn to_u8(self) -> (v: u8)
        ensures
            v == self.spec_to_u8(),
    {
        match self {
            ImageSize::Bits1 => 4,
            ImageSize::Bits4 => 0,
            ImageSize::Bits8 => 1,
            ImageSize::Bits16 => 2,
            ImageSize::Bits32 => 3,
            ImageSize::DD => 5,
        }
    }

    /// The size that `v` stands for, or `None` where it stands for none.
    pub fn try_from_u8(v: u8) -> (r: Option<ImageSize>)
        ensures
            r == Self::spec_try_from_u8(v),
    {
        match v {
            4 => Some(ImageSize::Bits1),
            0 => Some(ImageSize::Bits4),
            1 => Some(ImageSize::Bits8),
            2 => Some(ImageSize::Bits16),
            3 => Some(ImageSize::Bits32),
            5 => Some(ImageSize::DD),
            _ => None,
        }
    }

    /// The number of entries of a colour table for this size, if it has one.
    pub open spec fn spec_tlut_size(self) -> Option<usize> {
        match self {
            ImageSize::Bits1 => Some(2),
            ImageSize::Bits4 => Some(16),
            ImageSize::Bits8 => Some(256),
            ImageSize::Bits16 => Some(4096),
            ImageSize::Bits32 => Some(65536),
            ImageSize::DD => None,
        }
    }

    /// The number of bits of one texel of this size (none for `DD`).
    pub open spec fn spec_bits(self) -> nat {
        match self {
            ImageSize::Bits1 => 1,
            ImageSize::Bits4 => 4,
            ImageSize::Bits8 => 8,
            ImageSize::Bits16 => 16,
            ImageSize::Bits32 => 32,
            ImageSize::DD => 0,
        }
    }

    /// Returns the size of the TLUT (Table Look-Up Table) based on the image size,
    /// or `None` if the image size is not valid for a TLUT.
    pub fn get_tlut_size(&self) -> (r: Option<usize>)
        ensures
            r == self.spec_tlut_size(),
    {
        match self {
            ImageSize::Bits1 => Some(0b10),
            ImageSize::Bits4 => Some(0x10),
            ImageSize::Bits8 => Some(0x100),
            ImageSize::Bits16 => Some(0x1000),
            ImageSize::Bits32 => Some(0x10000),
            _ => None,
        }
    }
}

/// The colour model of a texture format.
#[derive(Copy, Clone, Debug, PartialEq, Eq, Hash, Structural)]
pub enum ImageFormat {
    Rgba,
    Yuv,
    Ci,
    Ia,
    I,
}

impl ImageFormat {
    /// The number that stands for this format in the texture format's bit fields.
    pub open spec fn spec_to_u8(self) -> u8 {
        match self {
            ImageFormat::Rgba => 0,
            ImageFormat::Yuv => 1,
            ImageFormat::Ci => 2,
            ImageFormat::Ia => 3,
            ImageFormat::I => 4,
        }
    }

    /// The format that a number stands for, if any.
    pub open spec fn spec_try_from_u8(v: u8) -> Option<ImageFormat> {
        if v == 0 {
            Some(ImageFormat::Rgba)
        } else if v == 1 {
            Some(ImageFormat::Yuv)
        } else if v == 2 {
            Some(ImageFormat::Ci)
        } else if v == 3 {
            Some(ImageFormat::Ia)
        } else if v == 4 {
            Some(ImageFormat::I)
        } else {
            None
        }
    }

    /// The number that stands for this format.
    pub fn to_u8(self) -> (v: u8)
        ensures
            v == self.spec_to_u8(),
    {
        match self {
            ImageFormat::Rgba => 0,
            ImageFormat::Yuv => 1,
            ImageFormat::Ci => 2,
            ImageFormat::Ia => 3,
            ImageFormat::I => 4,
        }
    }

    /// The format that `v` stands for, or `None` where it stands for none.
    pub fn try_from_u8(v: u8) -> (r: Option<ImageFormat>)
        ensures
            r == Self::spec_try_from_u8(v),
    {
        match v {
            0 => Some(ImageFormat::Rgba),
            1 => Some(ImageFormat::Yuv),
            2 => Some(ImageFormat::Ci),
            3 => Some(ImageFormat::Ia),
            4 => Some(ImageFormat::I),
            _ => None,
        }
    }
}

/// The number of variants of [`ImageType`].
pub const IMAGE_TYPE_COUNT: usize = 10;

/// Represents the type of image.
///
/// This enum is used to specify the type of image, which determines the size and format of the
/// image data.
/// Each variant corresponds to a specific image type, such as indexed color (Ci), grayscale (I),
/// grayscale with alpha (Ia), or red-green-blue-alpha (RGBA).
#[derive(Copy, Clone, Debug, PartialEq, Eq, Hash, Structural)]
pub enum ImageType {
    I1,
    I4,
    I8,
    Ia4,
    Ia8,
    Ia16,
    Ci4,
    Ci8,
    Rgba16,
    Rgba32,
}

impl ImageType {
    /// The number that stands for this type: its place in declaration order.
    pub open spec fn spec_to_u8(self) -> u8 {
        match self {
            ImageType::I1 => 0,
            ImageType::I4 => 1,
            ImageType::I8 => 2,
            ImageType::Ia4 => 3,
            ImageType::Ia8 => 4,
            ImageType::Ia16 => 5,
            ImageType::Ci4 => 6,
            ImageType::Ci8 => 7,
            ImageType::Rgba16 => 8,
            ImageType::Rgba32 => 9,
        }
    }

    /// Every image type, in declaration order.
    pub open spec fn spec_all() -> Seq<ImageType> {
        seq![
            ImageType::I1,
            ImageType::I4,
            ImageType::I8,
            ImageType::Ia4,
            ImageType::Ia8,
            ImageType::Ia16,
            ImageType::Ci4,
            ImageType::Ci8,
            ImageType::Rgba16,
            ImageType::Rgba32,
        ]
    }

    /// The type that a number stands for, if any.
    pub open spec fn spec_try_from_u8(v: u8) -> Option<ImageType> {
        if v < 10 {
            Some(Self::spec_all()[v as int])
        } else {
            None
        }
    }

    /// The number that stands for this type.
    pub fn to_u8(self) -> (v: u8)
        ensures
            v == self.spec_to_u8(),
    {
        match self {
            ImageType::I1 => 0,
            ImageType::I4 => 1,
            ImageType::I8 => 2,
            ImageType::Ia4 => 3,
            ImageType::Ia8 => 4,
            ImageType::Ia16 => 5,
            ImageType::Ci4 => 6,
            ImageType::Ci8 => 7,
            ImageType::Rgba16 => 8,
            ImageType::Rgba32 => 9,
        }
    }

    /// The type that `v` stands for, or `None` where it stands for none.
    pub fn try_from_u8(v: u8) -> (r: Option<ImageType>)
        ensures
            r == Self::spec_try_from_u8(v),
    {
        match v {
            0 => Some(ImageType::I1),
            1 => Some(ImageType::I4),
            2 => Some(ImageType::I8),
            3 => Some(ImageType::Ia4),
            4 => Some(ImageType::Ia8),
            5 => Some(ImageType::Ia16),
            6 => Some(ImageType::Ci4),
            7 => Some(ImageType::Ci8),
            8 => Some(ImageType::Rgba16),
            9 => Some(ImageType::Rgba32),
            _ => None,
        }
    }

    /// Every image type, in declaration order.
    pub fn all() -> (v: Vec<ImageType>)
        ensures
            v@ == Self::spec_all(),
            v@.len() == IMAGE_TYPE_COUNT,
    {
        let v = vec![
            ImageType::I1,
            ImageType::I4,
            ImageType::I8,
            ImageType::Ia4,
            ImageType::Ia8,
            ImageType::Ia16,
            ImageType::Ci4,
            ImageType::Ci8,
            ImageType::Rgba16,
            ImageType::Rgba32,
        ];
        assert(v@ =~= Self::spec_all());
        v
    }

    /// The number of bits of one texel of this type.
    pub open spec fn spec_size(self) -> ImageSize {
        match self {
            ImageType::Ci4 => ImageSize::Bits4,
            ImageType::Ci8 => ImageSize::Bits8,
            ImageType::I1 => ImageSize::Bits1,
            ImageType::I4 => ImageSize::Bits4,
            ImageType::I8 => ImageSize::Bits8,
            ImageType::Ia4 => ImageSize::Bits4,
            ImageType::Ia8 => ImageSize::Bits8,
            ImageType::Ia16 => ImageSize::Bits16,
            ImageType::Rgba16 => ImageSize::Bits16,
            ImageType::Rgba32 => ImageSize::Bits32,
        }
    }

    /// The colour model of this type.
    pub open spec fn spec_format(self) -> ImageFormat {
        match self {
            ImageType::Ci4 | ImageType::Ci8 => ImageFormat::Ci,
            ImageType::I1 | ImageType::I4 | ImageType::I8 => ImageFormat::I,
            ImageType::Ia4 | ImageType::Ia8 | ImageType::Ia16 => ImageFormat::Ia,
            ImageType::Rgba16 | ImageType::Rgba32 => ImageFormat::Rgba,
        }
    }

    /// Returns the size of the image type: the number of bits used to store each pixel.
    pub fn get_size(&self) -> (s: ImageSize)
        ensures
            s == self.spec_size(),
    {
        match self {
            ImageType::Ci4 => ImageSize::Bits4,
            ImageType::Ci8 => ImageSize::Bits8,
            ImageType::I1 => ImageSize::Bits1,
            ImageType::I4 => ImageSize::Bits4,
            ImageType::I8 => ImageSize::Bits8,
            ImageType::Ia4 => ImageSize::Bits4,
            ImageType::Ia8 => ImageSize::Bits8,
            ImageType::Ia16 => ImageSize::Bits16,
            ImageType::Rgba16 => ImageSize::Bits16,
            ImageType::Rgba32 => ImageSize::Bits32,
        }
    }

    /// Returns the format of the image type: the color model used by the image.
    pub fn get_format(&self) -> (f: ImageFormat)
        ensures
            f == self.spec_format(),
    {
        match self {
            ImageType::Ci4 => ImageFormat::Ci,
            ImageType::Ci8 => ImageFormat::Ci,
            ImageType::I1 => ImageFormat::I,
            ImageType::I4 => ImageFormat::I,
            ImageType::I8 => ImageFormat::I,
            ImageType::Ia4 => ImageFormat::Ia,
            ImageType::Ia8 => ImageFormat::Ia,
            ImageType::Ia16 => ImageFormat::Ia,
            ImageType::Rgba16 => ImageFormat::Rgba,
            ImageType::Rgba32 => ImageFormat::Rgba,
        }
    }
}

/// The layout of the colour table that an indexed texture uses.
#[derive(Copy, Clone, Debug, PartialEq, Eq, Hash, Structural)]
pub enum TextureLUT {
    NoLut,
    Rgba16,
    Ia16,
}

impl TextureLUT {
    /// The number that stands for this layout.
    pub open spec fn spec_to_u8(self) -> u8 {
        match self {
            TextureLUT::NoLut => 0,
            TextureLUT::Rgba16 => 2,
            TextureLUT::Ia16 => 3,
        }
    }

    /// The layout that a number stands for, if any.
    pub open spec fn spec_try_from_u8(v: u8) -> Option<TextureLUT> {
        if v == 0 {
            Some(TextureLUT::NoLut)
        } else if v == 2 {
            Some(TextureLUT::Rgba16)
        } else if v == 3 {
            Some(TextureLUT::Ia16)
        } else {
            None
        }
    }

    /// The number that stands for this layout.
    pub fn to_u8(self) -> (v: u8)
        ensures
            v == self.spec_to_u8(),
    {
        match self {
            TextureLUT::NoLut => 0,
            TextureLUT::Rgba16 => 2,
            TextureLUT::Ia16 => 3,
        }
    }

    /// The layout that `v` stands for, or `None` where it stands for none.
    pub fn try_from_u8(v: u8) -> (r: Option<TextureLUT>)
        ensures
            r == Self::spec_try_from_u8(v),
    {
        match v {
            0 => Some(TextureLUT::NoLut),
            2 => Some(TextureLUT::Rgba16),
            3 => Some(TextureLUT::Ia16),
            _ => None,
        }
    }
}

/// The colour table of a colour-indexed type has one entry for each value of its
/// texels.
pub proof fn lemma_ci_tlut_size(t: ImageType)
    requires
        t.spec_format() == ImageFormat::Ci,
    ensures
        t.spec_size().spec_tlut_size() == Some(vstd::arithmetic::power2::pow2(t.spec_size().spec_bits()) as usize),
{
    vstd::arithmetic::power2::lemma2_to64();
}

/// Each size's number gives that size back, and a number that gives a size is that
/// size's number.
pub proof fn lemma_image_size_u8_roundtrip(s: ImageSize, v: u8)
    ensures
        ImageSize::spec_try_from_u8(s.spec_to_u8()) == Some(s),
        ImageSize::spec_try_from_u8(v) matches Some(t) ==> t.spec_to_u8() == v,
{
}

/// Each format's number gives that format back, and a number that gives a format is
/// that format's number.
pub proof fn lemma_image_format_u8_roundtrip(f: ImageFormat, v: u8)
    ensures
        ImageFormat::spec_try_from_u8(f.spec_to_u8()) == Some(f),
        ImageFormat::spec_try_from_u8(v) matches Some(g) ==> g.spec_to_u8() == v,
{
}

/// Each image type's number gives that type back, and a number that gives a type is
/// that type's number.
pub proof fn lemma_image_type_u8_roundtrip(t: ImageType, v: u8)
    ensures
        ImageType::spec_try_from_u8(t.spec_to_u8()) == Some(t),
        ImageType::spec_try_from_u8(v) matches Some(u) ==> u.spec_to_u8() == v,
{
}

/// Each layout's number gives that layout back, and a number that gives a layout is
/// that layout's number.
pub proof fn lemma_texture_lut_u8_roundtrip(l: TextureLUT, v: u8)
    ensures
        TextureLUT::spec_try_from_u8(l.spec_to_u8()) == Some(l),
        TextureLUT::spec_try_from_u8(v) matches Some(m) ==> m.spec_to_u8() == v,
{
}

} // verus!
