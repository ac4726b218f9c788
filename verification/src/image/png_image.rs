//! A decoded PNG image and its conversion into the native texture formats.
use vstd::prelude::*;
use crate::image::flip::{spec_flip, lemma_flip_source, lemma_pixel_index};
use crate::image::texel::{
    palette_to_rgba16, palette_words,
    be_words, gray8_to_i4, gray_alpha_to_ia4, gray_alpha_to_ia8, i1_pack, luma_to_i4, pack_nibbles,
    rgba_to_ia16, rgba_to_ia4, rgba_to_ia8, rgba_words, push_gray8_to_i4, push_gray_alpha_to_ia4,
    push_gray_alpha_to_ia8, push_i1_pack, push_luma_prefix, push_luma_to_i4, push_pack_nibbles,
    push_rgba_to_ia16, push_rgba_to_ia4, push_rgba_to_ia8, push_rgba_to_rgba16,
};
use crate::{Error, ImageType};

verus! {

/// The colour type of a PNG image, with the number that the PNG format gives it.
#[derive(Copy, Clone, Debug, PartialEq, Eq, Hash, Structural)]
pub enum ColorType {
    Grayscale,
    Rgb,
    Indexed,
    GrayscaleAlpha,
    Rgba,
}

/// The number of bits of each sample of a PNG image.
#[derive(Copy, Clone, Debug, PartialEq, Eq, Hash, Structural)]
pub enum BitDepth {
    One,
    Two,
    Four,
    Eight,
    Sixteen,
}

impl ColorType {
    /// The number that the PNG format gives this colour type.
    pub open spec fn spec_code(self) -> u8 {
        match self {
            ColorType::Grayscale => 0,
            ColorType::Rgb => 2,
            ColorType::Indexed => 3,
            ColorType::GrayscaleAlpha => 4,
            ColorType::Rgba => 6,
        }
    }

    /// The colour type that the PNG format gives a number, if any.
    pub open spec fn spec_from_code(c: u8) -> Option<ColorType> {
        if c == 0 {
            Some(ColorType::Grayscale)
        } else if c == 2 {
            Some(ColorType::Rgb)
        } else if c == 3 {
            Some(ColorType::Indexed)
        } else if c == 4 {
            Some(ColorType::GrayscaleAlpha)
        } else if c == 6 {
            Some(ColorType::Rgba)
        } else {
            None
        }
    }

    /// The number of samples of one pixel of this colour type.
    pub open spec fn spec_samples(self) -> usize {
        match self {
            ColorType::Grayscale | ColorType::Indexed => 1,
            ColorType::Rgb => 3,
            ColorType::GrayscaleAlpha => 2,
            ColorType::Rgba => 4,
        }
    }

    /// The number that the PNG format gives this colour type.
    pub fn code(self) -> (c: u8)
        ensures
            c == self.spec_code(),
            Self::spec_from_code(c) == Some(self),
    {
        match self {
            ColorType::Grayscale => 0,
            ColorType::Rgb => 2,
            ColorType::Indexed => 3,
            ColorType::GrayscaleAlpha => 4,
            ColorType::Rgba => 6,
        }
    }

    /// The colour type that the PNG format gives `c`, or `None` where it gives none.
    pub fn from_code(c: u8) -> (r: Option<ColorType>)
        ensures
            r == Self::spec_from_code(c),
    {
        match c {
            0 => Some(ColorType::Grayscale),
            2 => Some(ColorType::Rgb),
            3 => Some(ColorType::Indexed),
            4 => Some(ColorType::GrayscaleAlpha),
            6 => Some(ColorType::Rgba),
            _ => None,
        }
    }

    /// Returns the number of samples used per pixel encoded in this way.
    pub fn samples(self) -> (n: usize)
        ensures
            n == self.spec_samples(),
    {
        png_samples(self.code())
    }
}

/// Calls `png::ColorType::samples` on the colour type that the PNG format numbers
/// `code`. As its source shows, that is one sample for grayscale and indexed
/// images, two for grayscale with alpha, three for RGB and four for RGBA.
#[verifier::external_body]
fn png_samples(code: u8) -> (n: usize)
    requires
        ColorType::spec_from_code(code) is Some,
    ensures
        n == ColorType::spec_from_code(code).unwrap().spec_samples(),
{
    png::ColorType::from_u8(code).unwrap().samples()
}

impl BitDepth {
    /// The number of bits that this depth stands for, which is also the number that
    /// the PNG format gives it.
    pub open spec fn spec_code(self) -> u8 {
        match self {
            BitDepth::One => 1,
            BitDepth::Two => 2,
            BitDepth::Four => 4,
            BitDepth::Eight => 8,
            BitDepth::Sixteen => 16,
        }
    }

    /// The depth of a number of bits, if any.
    pub open spec fn spec_from_code(c: u8) -> Option<BitDepth> {
        if c == 1 {
            Some(BitDepth::One)
        } else if c == 2 {
            Some(BitDepth::Two)
        } else if c == 4 {
            Some(BitDepth::Four)
        } else if c == 8 {
            Some(BitDepth::Eight)
        } else if c == 16 {
            Some(BitDepth::Sixteen)
        } else {
            None
        }
    }

    /// The number of bits that this depth stands for.
    pub fn code(self) -> (c: u8)
        ensures
            c == self.spec_code(),
            Self::spec_from_code(c) == Some(self),
    {
        match self {
            BitDepth::One => 1,
            BitDepth::Two => 2,
            BitDepth::Four => 4,
            BitDepth::Eight => 8,
            BitDepth::Sixteen => 16,
        }
    }

    /// The depth of `c` bits, or `None` where there is none.
    pub fn from_code(c: u8) -> (r: Option<BitDepth>)
        ensures
            r == Self::spec_from_code(c),
    {
        match c {
            1 => Some(BitDepth::One),
            2 => Some(BitDepth::Two),
            4 => Some(BitDepth::Four),
            8 => Some(BitDepth::Eight),
            16 => Some(BitDepth::Sixteen),
            _ => None,
        }
    }
}

/// A decoded PNG image.
#[derive(Debug, Clone)]
pub struct PNGImage {
    /// Raw image data in row-major order.
    pub data: Vec<u8>,
    /// The color type of the image.
    pub color_type: ColorType,
    /// The bit depth of each color channel.
    pub bit_depth: BitDepth,
    /// The width of the image in pixels.
    pub width: u32,
    /// The height of the image in pixels.
    pub height: u32,
}

impl PNGImage {
    /// Where [`PNGImage::flip`] can run: every pixel that the width and height give
    /// lies in the data, and each pixel's number fits in 32 bits.
    pub open spec fn flippable(&self) -> bool {
        &&& self.width * self.height * self.color_type.spec_samples() <= self.data@.len()
        &&& self.width * self.height <= 0x1_0000_0000
    }

    /// Mirrors the image horizontally (`flip_x`) and/or vertically (`flip_y`).
    /// Each pixel keeps its bytes; bytes of the data past the last pixel become zero.
    pub fn flip(&self, flip_x: bool, flip_y: bool) -> (r: PNGImage)
        requires
            self.flippable(),
        ensures
            r.data@ == spec_flip(
                self.data@,
                self.width as int,
                self.height as int,
                self.color_type.spec_samples() as int,
                flip_x,
                flip_y,
            ),
            r.color_type == self.color_type,
            r.bit_depth == self.bit_depth,
            r.width == self.width,
            r.height == self.height,
    {
        let len = self.data.len();
        let mut flipped_bytes: Vec<u8> = vec![0u8; len];
        let samples = self.color_type.samples();
        let w = self.width;
        let h = self.height;
        let ghost wi = w as int;
        let ghost hi = h as int;
        let ghost si = samples as int;
        let ghost data = self.data@;
        let ghost target = spec_flip(data, wi, hi, si, flip_x, flip_y);
        assert forall|i: int| 0 <= i < len implies flipped_bytes@[i] == 0u8 by {
            assert(cloned(0u8, flipped_bytes@[i]));
        }
        let mut y: u32 = 0;
        while y < h
            invariant
                0 <= y <= h,
                flipped_bytes@.len() == len,
                data == self.data@,
                len == data.len(),
                wi == w,
                hi == h,
                si == samples,
                samples >= 1,
                target == spec_flip(data, wi, hi, si, flip_x, flip_y),
                wi * hi * si <= len,
                wi * hi <= 0x1_0000_0000,
                y * wi * si <= len,
                forall|i: int| 0 <= i < y * wi * si ==> flipped_bytes@[i] == target[i],
                forall|i: int| y * wi * si <= i < len ==> flipped_bytes@[i] == 0u8,
            decreases h - y,
        {
            let mut x: u32 = 0;
            while x < w
                invariant
                    0 <= y < h,
                    0 <= x <= w,
                    flipped_bytes@.len() == len,
                    data == self.data@,
                    len == data.len(),
                    wi == w,
                    hi == h,
                    si == samples,
                    samples >= 1,
                    target == spec_flip(data, wi, hi, si, flip_x, flip_y),
                    wi * hi * si <= len,
                    wi * hi <= 0x1_0000_0000,
                    (y * wi + x) * si <= len,
                    forall|i: int| 0 <= i < (y * wi + x) * si ==> flipped_bytes@[i] == target[i],
                    forall|i: int| (y * wi + x) * si <= i < len ==> flipped_bytes@[i] == 0u8,
                decreases w - x,
            {
                proof {
                    lemma_pixel_index(wi, hi, si, x as int, y as int, 0);
                }
                let old_x = if flip_x { w - 1 - x } else { x };
                let old_y = if flip_y { h - 1 - y } else { y };
                proof {
                    lemma_pixel_index(wi, hi, si, old_x as int, old_y as int, 0);
                    assert((y * wi + x + 1) * si <= wi * hi * si) by (nonlinear_arith)
                        requires
                            0 <= y * wi + x < wi * hi,
                            si >= 1,
                    ;
                    assert((old_y * wi + old_x + 1) * si <= wi * hi * si) by (nonlinear_arith)
                        requires
                            0 <= old_y * wi + old_x < wi * hi,
                            si >= 1,
                    ;
                    assert((y * wi + x) * si + si == (y * wi + x + 1) * si) by (nonlinear_arith);
                    assert((old_y * wi + old_x) * si + si == (old_y * wi + old_x + 1) * si)
                        by (nonlinear_arith);
                }
                let old_index = (old_y * w + old_x) as usize * samples;
                let new_index = (y * w + x) as usize * samples;
                let mut k: usize = 0;
                while k < samples
                    invariant
                        0 <= y < h,
                        0 <= x < w,
                        0 <= k <= samples,
                        old_x == (if flip_x { w - 1 - x } else { x as int }),
                        old_y == (if flip_y { h - 1 - y } else { y as int }),
                        old_index == (old_y * wi + old_x) * si,
                        new_index == (y * wi + x) * si,
                        old_index + si <= len,
                        new_index + si <= len,
                        flipped_bytes@.len() == len,
                        data == self.data@,
                        len == data.len(),
                        wi == w,
                        hi == h,
                        si == samples,
                        target == spec_flip(data, wi, hi, si, flip_x, flip_y),
                        wi * hi * si <= len,
                        forall|i: int| 0 <= i < new_index + k ==> flipped_bytes@[i] == target[i],
                        forall|i: int| new_index + k <= i < len ==> flipped_bytes@[i] == 0u8,
                    decreases samples - k,
                {
                    proof {
                        lemma_flip_source(wi, hi, si, flip_x, flip_y, x as int, y as int, k as int);
                        lemma_pixel_index(wi, hi, si, x as int, y as int, k as int);
                        assert(new_index + k < wi * hi * si);
                        assert(target[new_index + k] == data[old_index + k as int]);
                    }
                    flipped_bytes.set(new_index + k, self.data[old_index + k]);
                    k += 1;
                }
                proof {
                    assert((y * wi + x) * si + si == (y * wi + (x + 1)) * si) by (nonlinear_arith);
                }
                x += 1;
            }
            proof {
                assert((y * wi + wi) * si == (y + 1) * wi * si) by (nonlinear_arith);
            }
            y += 1;
        }
        proof {
            assert forall|i: int| 0 <= i < len implies flipped_bytes@[i] == target[i] by {
                if i >= hi * wi * si {
                    assert(hi * wi * si == wi * hi * si) by (nonlinear_arith);
                }
            }
            assert(flipped_bytes@ =~= target);
        }
        PNGImage {
            data: flipped_bytes,
            color_type: self.color_type,
            bit_depth: self.bit_depth,
            width: self.width,
            height: self.height,
        }
    }
}

/// What the conversion of an image of data `d`, colour type `color` and bit depth
/// `depth` into `target` gives, or `None` where the image's format has no such
/// conversion. `l` holds the intensity of each pixel of an RGB or RGBA image.
pub open spec fn spec_convert(
    d: Seq<u8>,
    color: ColorType,
    depth: BitDepth,
    l: Seq<u8>,
    target: ImageType,
) -> Option<Seq<u8>> {
    match target {
        ImageType::I1 => if color == ColorType::Grayscale && depth == BitDepth::One {
            Some(d)
        } else {
            match spec_convert_i8(d, color, depth, l) {
                Some(p) => Some(i1_pack(p)),
                None => None,
            }
        },
        ImageType::I4 => match (color, depth) {
            (ColorType::Grayscale, BitDepth::Four) => Some(d),
            (ColorType::Grayscale, BitDepth::Eight) => Some(gray8_to_i4(d)),
            (ColorType::Rgba, BitDepth::Eight) => Some(luma_to_i4(l, (d.len() / 8) as int)),
            (ColorType::Rgb, BitDepth::Eight) => Some(luma_to_i4(l, (d.len() / 6) as int)),
            _ => None,
        },
        ImageType::I8 => spec_convert_i8(d, color, depth, l),
        ImageType::Ia4 => match (color, depth) {
            (ColorType::GrayscaleAlpha, BitDepth::Eight) => Some(gray_alpha_to_ia4(d)),
            (ColorType::Rgba, BitDepth::Eight) => Some(rgba_to_ia4(d, l)),
            _ => None,
        },
        ImageType::Ia8 => match (color, depth) {
            (ColorType::GrayscaleAlpha, BitDepth::Eight) => Some(gray_alpha_to_ia8(d)),
            (ColorType::Rgba, BitDepth::Eight) => Some(rgba_to_ia8(d, l)),
            _ => None,
        },
        ImageType::Ia16 => match (color, depth) {
            (ColorType::GrayscaleAlpha, BitDepth::Eight) => Some(d),
            (ColorType::Rgba, BitDepth::Eight) => Some(rgba_to_ia16(d, l)),
            _ => None,
        },
        ImageType::Ci4 => match (color, depth) {
            (ColorType::Indexed, BitDepth::Four) => Some(d),
            (ColorType::Indexed, BitDepth::Eight) => Some(pack_nibbles(d)),
            _ => None,
        },
        ImageType::Ci8 => match (color, depth) {
            (ColorType::Indexed, BitDepth::Eight) => Some(d),
            _ => None,
        },
        ImageType::Rgba16 => match (color, depth) {
            (ColorType::Rgba, BitDepth::Eight) => Some(be_words(rgba_words(d))),
            _ => None,
        },
        ImageType::Rgba32 => match (color, depth) {
            (ColorType::Rgba, BitDepth::Eight) => Some(d),
            _ => None,
        },
    }
}

/// What the conversion into I8 gives: grayscale bytes as they are, pairs of 4-bit
/// grayscale bytes packed, and the intensity of each RGB or RGBA pixel.
pub open spec fn spec_convert_i8(d: Seq<u8>, color: ColorType, depth: BitDepth, l: Seq<u8>) -> Option<
    Seq<u8>,
> {
    match (color, depth) {
        (ColorType::Grayscale, BitDepth::Eight) => Some(d),
        (ColorType::Grayscale, BitDepth::Four) => Some(pack_nibbles(d)),
        (ColorType::Rgba, BitDepth::Eight) => Some(l.take((d.len() / 4) as int)),
        (ColorType::Rgb, BitDepth::Eight) => Some(l.take((d.len() / 3) as int)),
        _ => None,
    }
}

/// The target that an unsupported conversion into `target` names in its error: the
/// conversion into I1 goes through I8 and reports that.
pub open spec fn error_target(target: ImageType) -> ImageType {
    if target == ImageType::I1 {
        ImageType::I8
    } else {
        target
    }
}

impl PNGImage {
    /// `luma` holds an intensity for every pixel of an 8-bit RGB or RGBA image.
    pub open spec fn luma_covers(&self, luma: Seq<u8>) -> bool {
        &&& (self.color_type == ColorType::Rgba && self.bit_depth == BitDepth::Eight)
            ==> luma.len() >= self.data@.len() / 4
        &&& (self.color_type == ColorType::Rgb && self.bit_depth == BitDepth::Eight)
            ==> luma.len() >= self.data@.len() / 3
    }

    /// The outcome of converting this image into `target`, writing to a buffer that
    /// held `before` and holds `after`: the converted bytes appended, or, where the
    /// image's format has no such conversion, the buffer unchanged and the error
    /// naming the image's colour type and depth and the target.
    pub open spec fn converted(
        &self,
        luma: Seq<u8>,
        target: ImageType,
        before: Seq<u8>,
        after: Seq<u8>,
        res: Result<(), Error>,
    ) -> bool {
        match spec_convert(self.data@, self.color_type, self.bit_depth, luma, target) {
            Some(bytes) => res is Ok && after == before + bytes,
            None => {
                &&& after == before
                &&& res matches Err(Error::UnsupportedPngConversion { color, depth, target_format })
                &&& color == self.color_type
                &&& depth == self.bit_depth
                &&& target_format == error_target(target)
            },
        }
    }

    /// The error of a conversion into `target` that this image's format does not have.
    fn unsupported(&self, target: ImageType) -> (e: Error)
        ensures
            e == (Error::UnsupportedPngConversion {
                color: self.color_type,
                depth: self.bit_depth,
                target_format: target,
            }),
    {
        Error::UnsupportedPngConversion {
            color: self.color_type,
            depth: self.bit_depth,
            target_format: target,
        }
    }

    /// Writes the image as CI8: an 8-bit indexed image's data as it is.
    pub fn as_ci8(&self, writer: &mut Vec<u8>) -> (res: Result<(), Error>)
        ensures
            self.converted(Seq::empty(), ImageType::Ci8, old(writer)@, final(writer)@, res),
    {
        if self.bit_depth != BitDepth::Eight || self.color_type != ColorType::Indexed {
            return Err(self.unsupported(ImageType::Ci8));
        }
        push_all(&self.data, writer);
        Ok(())
    }

    /// Writes the image as CI4: a 4-bit indexed image's data as it is, or each pair
    /// of an 8-bit indexed image's indices in one byte.
    pub fn as_ci4(&self, writer: &mut Vec<u8>) -> (res: Result<(), Error>)
        ensures
            self.converted(Seq::empty(), ImageType::Ci4, old(writer)@, final(writer)@, res),
    {
        if self.color_type != ColorType::Indexed {
            return Err(self.unsupported(ImageType::Ci4));
        }
        match self.bit_depth {
            BitDepth::Four => push_all(&self.data, writer),
            BitDepth::Eight => push_pack_nibbles(&self.data, writer),
            _ => {
                return Err(self.unsupported(ImageType::Ci4));
            },
        }
        Ok(())
    }

    /// Writes the image as I1: a 1-bit grayscale image's data as it is; otherwise
    /// the image as I8, each eight intensities in one byte, a bit set for each
    /// intensity over half. `luma` holds the intensity of each RGB or RGBA pixel.
    pub fn as_i1(&self, luma: &Vec<u8>, writer: &mut Vec<u8>) -> (res: Result<(), Error>)
        requires
            self.luma_covers(luma@),
        ensures
            self.converted(luma@, ImageType::I1, old(writer)@, final(writer)@, res),
    {
        if self.color_type == ColorType::Grayscale && self.bit_depth == BitDepth::One {
            push_all(&self.data, writer);
        } else {
            let mut i8_data: Vec<u8> = Vec::new();
            let r = self.as_i8(luma, &mut i8_data);
            match r {
                Ok(()) => {},
                Err(e) => {
                    return Err(e);
                },
            }
            assert(i8_data@ =~= Seq::<u8>::empty() + i8_data@);
            push_i1_pack(&i8_data, writer);
        }
        Ok(())
    }

    /// Writes the image as I4: two 4-bit intensities in each byte, from 4-bit or
    /// 8-bit grayscale data or from the intensities of RGB or RGBA pixels.
    pub fn as_i4(&self, luma: &Vec<u8>, writer: &mut Vec<u8>) -> (res: Result<(), Error>)
        requires
            self.luma_covers(luma@),
        ensures
            self.converted(luma@, ImageType::I4, old(writer)@, final(writer)@, res),
    {
        match (self.color_type, self.bit_depth) {
            (ColorType::Grayscale, BitDepth::Four) => push_all(&self.data, writer),
            (ColorType::Grayscale, BitDepth::Eight) => push_gray8_to_i4(&self.data, writer),
            (ColorType::Rgba, BitDepth::Eight) => push_luma_to_i4(luma, self.data.len() / 8, writer),
            (ColorType::Rgb, BitDepth::Eight) => push_luma_to_i4(luma, self.data.len() / 6, writer),
            _ => {
                return Err(self.unsupported(ImageType::I4));
            },
        }
        Ok(())
    }

    /// Writes the image as I8: 8-bit grayscale data as it is, pairs of 4-bit
    /// grayscale bytes in one byte, or the intensity of each RGB or RGBA pixel.
    pub fn as_i8(&self, luma: &Vec<u8>, writer: &mut Vec<u8>) -> (res: Result<(), Error>)
        requires
            self.luma_covers(luma@),
        ensures
            self.converted(luma@, ImageType::I8, old(writer)@, final(writer)@, res),
    {
        match (self.color_type, self.bit_depth) {
            (ColorType::Grayscale, BitDepth::Eight) => push_all(&self.data, writer),
            (ColorType::Grayscale, BitDepth::Four) => push_pack_nibbles(&self.data, writer),
            (ColorType::Rgba, BitDepth::Eight) => push_luma_prefix(luma, self.data.len() / 4, writer),
            (ColorType::Rgb, BitDepth::Eight) => push_luma_prefix(luma, self.data.len() / 3, writer),
            _ => {
                return Err(self.unsupported(ImageType::I8));
            },
        }
        Ok(())
    }

    /// Writes the image as IA4: two texels of three bits of intensity and one of
    /// alpha in each byte, from 8-bit grayscale-alpha or RGBA pixels.
    pub fn as_ia4(&self, luma: &Vec<u8>, writer: &mut Vec<u8>) -> (res: Result<(), Error>)
        requires
            self.luma_covers(luma@),
        ensures
            self.converted(luma@, ImageType::Ia4, old(writer)@, final(writer)@, res),
    {
        match (self.color_type, self.bit_depth) {
            (ColorType::GrayscaleAlpha, BitDepth::Eight) => push_gray_alpha_to_ia4(&self.data, writer),
            (ColorType::Rgba, BitDepth::Eight) => push_rgba_to_ia4(&self.data, luma, writer),
            _ => {
                return Err(self.unsupported(ImageType::Ia4));
            },
        }
        Ok(())
    }

    /// Writes the image as IA8: four bits of intensity above four bits of alpha,
    /// from 8-bit grayscale-alpha or RGBA pixels.
    pub fn as_ia8(&self, luma: &Vec<u8>, writer: &mut Vec<u8>) -> (res: Result<(), Error>)
        requires
            self.luma_covers(luma@),
        ensures
            self.converted(luma@, ImageType::Ia8, old(writer)@, final(writer)@, res),
    {
        match (self.color_type, self.bit_depth) {
            (ColorType::GrayscaleAlpha, BitDepth::Eight) => push_gray_alpha_to_ia8(&self.data, writer),
            (ColorType::Rgba, BitDepth::Eight) => push_rgba_to_ia8(&self.data, luma, writer),
            _ => {
                return Err(self.unsupported(ImageType::Ia8));
            },
        }
        Ok(())
    }

    /// Writes the image as IA16: a byte of intensity and a byte of alpha for each
    /// 8-bit grayscale-alpha or RGBA pixel.
    pub fn as_ia16(&self, luma: &Vec<u8>, writer: &mut Vec<u8>) -> (res: Result<(), Error>)
        requires
            self.luma_covers(luma@),
        ensures
            self.converted(luma@, ImageType::Ia16, old(writer)@, final(writer)@, res),
    {
        match (self.color_type, self.bit_depth) {
            (ColorType::GrayscaleAlpha, BitDepth::Eight) => push_all(&self.data, writer),
            (ColorType::Rgba, BitDepth::Eight) => push_rgba_to_ia16(&self.data, luma, writer),
            _ => {
                return Err(self.unsupported(ImageType::Ia16));
            },
        }
        Ok(())
    }

    /// Writes the image as RGBA16: the RGBA5551 texel of each 8-bit RGBA pixel,
    /// most significant byte first.
    pub fn as_rgba16(&self, writer: &mut Vec<u8>) -> (res: Result<(), Error>)
        ensures
            self.converted(Seq::empty(), ImageType::Rgba16, old(writer)@, final(writer)@, res),
    {
        match (self.color_type, self.bit_depth) {
            (ColorType::Rgba, BitDepth::Eight) => push_rgba_to_rgba16(&self.data, writer),
            _ => {
                return Err(self.unsupported(ImageType::Rgba16));
            },
        }
        Ok(())
    }

    /// Writes the image as RGBA32: an 8-bit RGBA image's data as it is.
    pub fn as_rgba32(&self, writer: &mut Vec<u8>) -> (res: Result<(), Error>)
        ensures
            self.converted(Seq::empty(), ImageType::Rgba32, old(writer)@, final(writer)@, res),
    {
        match (self.color_type, self.bit_depth) {
            (ColorType::Rgba, BitDepth::Eight) => push_all(&self.data, writer),
            _ => {
                return Err(self.unsupported(ImageType::Rgba32));
            },
        }
        Ok(())
    }

    /// Writes the image in the native format `image_type`.
    pub fn as_native(&self, luma: &Vec<u8>, writer: &mut Vec<u8>, image_type: ImageType) -> (res: Result<(), Error>)
        requires
            self.luma_covers(luma@),
        ensures
            self.converted(luma@, image_type, old(writer)@, final(writer)@, res),
    {
        match image_type {
            ImageType::I1 => self.as_i1(luma, writer),
            ImageType::I4 => self.as_i4(luma, writer),
            ImageType::I8 => self.as_i8(luma, writer),
            ImageType::Ia4 => self.as_ia4(luma, writer),
            ImageType::Ia8 => self.as_ia8(luma, writer),
            ImageType::Ia16 => self.as_ia16(luma, writer),
            ImageType::Ci4 => self.as_ci4(writer),
            ImageType::Ci8 => self.as_ci8(writer),
            ImageType::Rgba32 => self.as_rgba32(writer),
            ImageType::Rgba16 => self.as_rgba16(writer),
        }
    }
}

/// What the `png` crate's decoder makes of the bytes of a PNG file: the bytes of
/// its first frame, the numbers of its colour type and bit depth, its width and its
/// height; `None` where decoding fails.
pub uninterp spec fn png_decoded(bytes: Seq<u8>) -> Option<(Seq<u8>, u8, u8, u32, u32)>;

/// What the `png` crate's encoder writes for image data of a width, a height, and a
/// colour type and bit depth given by their numbers: the bytes it writes, which it
/// also writes in part where it fails, and whether it succeeds.
pub uninterp spec fn png_encoded(data: Seq<u8>, width: u32, height: u32, color: u8, depth: u8) -> (Seq<u8>, bool);

/// The number of data bytes of one row of a PNG image, as the `png` crate's encoder
/// counts them: `width` pixels of the colour type's samples of `depth` bits each,
/// rounded up to whole bytes.
pub open spec fn png_row_bytes(color: ColorType, depth: BitDepth, width: u32) -> int {
    let samples = width * color.spec_samples();
    match depth {
        BitDepth::Sixteen => samples * 2,
        BitDepth::Eight => samples,
        _ => {
            let per_byte: int = match depth {
                BitDepth::One => 8,
                BitDepth::Two => 4,
                _ => 2,
            };
            samples / per_byte + (if samples % per_byte > 0 { 1int } else { 0int })
        },
    }
}

/// The colour type and bit depth make a combination that the PNG format allows.
pub open spec fn png_combination_valid(color: ColorType, depth: BitDepth) -> bool {
    &&& !((depth == BitDepth::One || depth == BitDepth::Two || depth == BitDepth::Four) && (color
        == ColorType::Rgb || color == ColorType::GrayscaleAlpha || color == ColorType::Rgba))
    &&& !(depth == BitDepth::Sixteen && color == ColorType::Indexed)
}

/// Where the `png` crate's encoder reaches the size arithmetic of its
/// `write_image_data` (a non-empty image of a combination that the PNG format allows,
/// not indexed), the samples of a row, the row's length with its filter byte, and the
/// data size of all rows fit in `usize`.
pub open spec fn png_encoder_sizes_fit(color: ColorType, depth: BitDepth, width: u32, height: u32) -> bool {
    (width > 0 && height > 0 && color != ColorType::Indexed && png_combination_valid(color, depth))
        ==> {
        &&& width * color.spec_samples() <= usize::MAX
        &&& png_row_bytes(color, depth, width) + 1 <= usize::MAX
        &&& png_row_bytes(color, depth, width) * height <= usize::MAX
    }
}

/// The depth that the PNG format numbers `b` has `b` bits per sample: a row of eight
/// grayscale pixels of it takes `b` bytes; and each depth's number gives it back.
pub proof fn lemma_bit_depth_bits(d: BitDepth, b: u8)
    ensures
        png_row_bytes(ColorType::Grayscale, d, 8) == d.spec_code(),
        BitDepth::spec_from_code(b) matches Some(e) ==> png_row_bytes(ColorType::Grayscale, e, 8)
            == b,
        BitDepth::spec_from_code(d.spec_code()) == Some(d),
{
}

/// The number that the PNG format gives a colour type is made of flags: 1 for a
/// palette, 2 for colour, 4 for alpha. A pixel has one sample where it has a palette,
/// and otherwise one, plus two for colour, plus one for alpha.
pub proof fn lemma_color_type_flags(c: ColorType, k: u8)
    ensures
        (c.spec_code() % 2 == 1) == (c == ColorType::Indexed),
        ((c.spec_code() / 2) % 2 == 1) == (c == ColorType::Rgb || c == ColorType::Indexed || c
            == ColorType::Rgba),
        ((c.spec_code() / 4) % 2 == 1) == (c == ColorType::GrayscaleAlpha || c == ColorType::Rgba),
        c.spec_samples() == (if c.spec_code() % 2 == 1 {
            1
        } else {
            1 + 2 * ((c.spec_code() / 2) % 2) + (c.spec_code() / 4) % 2
        }),
        ColorType::spec_from_code(c.spec_code()) == Some(c),
        ColorType::spec_from_code(k) matches Some(e) ==> e.spec_code() == k,
{
}

/// Every conversion of 8-bit data of whole groups of eight pixels writes, for each
/// pixel, as many bits as the target type's texel has.
pub proof fn lemma_convert_texel_bits(d: Seq<u8>, color: ColorType, l: Seq<u8>, t: ImageType)
    requires
        (d.len() as int) % (8 * color.spec_samples() as int) == 0,
        color == ColorType::Rgba ==> l.len() >= d.len() / 4,
        color == ColorType::Rgb ==> l.len() >= d.len() / 3,
    ensures
        spec_convert(d, color, BitDepth::Eight, l, t) matches Some(s) ==> s.len() * 8 == ((d.len() as int)
            / (color.spec_samples() as int)) * t.spec_size().spec_bits(),
{
    let n = d.len();
    match color {
        ColorType::Grayscale => {
            assert(n % 8 == 0);
        },
        ColorType::Indexed => {
            assert(n % 8 == 0);
        },
        ColorType::GrayscaleAlpha => {
            assert(n % 16 == 0);
        },
        ColorType::Rgb => {
            assert(n % 24 == 0);
            assert(l.take((n / 3) as int).len() == n / 3);
        },
        ColorType::Rgba => {
            assert(n % 32 == 0);
            assert(l.take((n / 4) as int).len() == n / 4);
        },
    }
}

/// Which bytes each conversion writes for each format of image that it takes, and
/// that it takes no other: CI8 and CI4 take indexed images, I1, I4 and I8 grayscale,
/// RGB and RGBA ones, IA4, IA8 and IA16 grayscale-alpha and RGBA ones, RGBA16 and
/// RGBA32 RGBA ones, all of 8 bits but for the passes of 1-bit grayscale to I1,
/// 4-bit grayscale to I4 and I8 and 4-bit indices to CI4.
pub proof fn lemma_convert_table(d: Seq<u8>, c: ColorType, depth: BitDepth, l: Seq<u8>)
    ensures
        spec_convert(d, c, depth, l, ImageType::Ci8) == if c == ColorType::Indexed && depth
            == BitDepth::Eight {
            Some(d)
        } else {
            None
        },
        spec_convert(d, c, depth, l, ImageType::Ci4) == if c == ColorType::Indexed && depth
            == BitDepth::Four {
            Some(d)
        } else if c == ColorType::Indexed && depth == BitDepth::Eight {
            Some(pack_nibbles(d))
        } else {
            None
        },
        spec_convert(d, c, depth, l, ImageType::I8) == if c == ColorType::Grayscale && depth
            == BitDepth::Eight {
            Some(d)
        } else if c == ColorType::Grayscale && depth == BitDepth::Four {
            Some(pack_nibbles(d))
        } else if c == ColorType::Rgba && depth == BitDepth::Eight {
            Some(l.take((d.len() / 4) as int))
        } else if c == ColorType::Rgb && depth == BitDepth::Eight {
            Some(l.take((d.len() / 3) as int))
        } else {
            None
        },
        spec_convert(d, c, depth, l, ImageType::I1) == if c == ColorType::Grayscale && depth
            == BitDepth::One {
            Some(d)
        } else {
            match spec_convert(d, c, depth, l, ImageType::I8) {
                Some(p) => Some(i1_pack(p)),
                None => None,
            }
        },
        spec_convert(d, c, depth, l, ImageType::I4) == if c == ColorType::Grayscale && depth
            == BitDepth::Four {
            Some(d)
        } else if c == ColorType::Grayscale && depth == BitDepth::Eight {
            Some(gray8_to_i4(d))
        } else if c == ColorType::Rgba && depth == BitDepth::Eight {
            Some(luma_to_i4(l, (d.len() / 8) as int))
        } else if c == ColorType::Rgb && depth == BitDepth::Eight {
            Some(luma_to_i4(l, (d.len() / 6) as int))
        } else {
            None
        },
        spec_convert(d, c, depth, l, ImageType::Ia4) == if c == ColorType::GrayscaleAlpha
            && depth == BitDepth::Eight {
            Some(gray_alpha_to_ia4(d))
        } else if c == ColorType::Rgba && depth == BitDepth::Eight {
            Some(rgba_to_ia4(d, l))
        } else {
            None
        },
        spec_convert(d, c, depth, l, ImageType::Ia8) == if c == ColorType::GrayscaleAlpha
            && depth == BitDepth::Eight {
            Some(gray_alpha_to_ia8(d))
        } else if c == ColorType::Rgba && depth == BitDepth::Eight {
            Some(rgba_to_ia8(d, l))
        } else {
            None
        },
        spec_convert(d, c, depth, l, ImageType::Ia16) == if c == ColorType::GrayscaleAlpha
            && depth == BitDepth::Eight {
            Some(d)
        } else if c == ColorType::Rgba && depth == BitDepth::Eight {
            Some(rgba_to_ia16(d, l))
        } else {
            None
        },
        spec_convert(d, c, depth, l, ImageType::Rgba16) == if c == ColorType::Rgba && depth
            == BitDepth::Eight {
            Some(be_words(rgba_words(d)))
        } else {
            None
        },
        spec_convert(d, c, depth, l, ImageType::Rgba32) == if c == ColorType::Rgba && depth
            == BitDepth::Eight {
            Some(d)
        } else {
            None
        },
{
}

/// Each conversion takes only images of its type's colour model: colour-indexed
/// types take indexed images, intensity types grayscale, RGB or RGBA ones,
/// intensity-alpha types grayscale-alpha or RGBA ones, and RGBA types RGBA ones.
pub proof fn lemma_convert_format(d: Seq<u8>, c: ColorType, depth: BitDepth, l: Seq<u8>, t: ImageType)
    requires
        spec_convert(d, c, depth, l, t) is Some,
    ensures
        t.spec_format() == crate::ImageFormat::Ci ==> c == ColorType::Indexed,
        t.spec_format() == crate::ImageFormat::I ==> (c == ColorType::Grayscale || c == ColorType::Rgb
            || c == ColorType::Rgba),
        t.spec_format() == crate::ImageFormat::Ia ==> (c == ColorType::GrayscaleAlpha || c
            == ColorType::Rgba),
        t.spec_format() == crate::ImageFormat::Rgba ==> c == ColorType::Rgba,
{
}

/// What the `png` crate's header reader finds in the bytes of a PNG file: its
/// palette and its transparency table, where it has them; `None` where reading fails.
pub uninterp spec fn png_palette_tables(bytes: Seq<u8>) -> Option<(Option<Seq<u8>>, Option<Seq<u8>>)>;

/// The bytes of an optional buffer.
pub open spec fn opt_bytes(o: Option<Vec<u8>>) -> Option<Seq<u8>> {
    match o {
        Some(v) => Some(v@),
        None => None,
    }
}

/// Decodes `bytes` with `png::Decoder::new`, `read_info` and `next_frame` into a
/// buffer of `output_buffer_size` bytes, of which the frame's `buffer_size` are kept.
/// The result is what [`png_decoded`] names; the colour type and depth come back as
/// the numbers of their `repr(u8)` enums, which the PNG format gives them.
#[verifier::external_body]
fn png_decode(bytes: &[u8]) -> (res: Result<(Vec<u8>, u8, u8, u32, u32), png::DecodingError>)
    ensures
        res is Ok <==> png_decoded(bytes@) is Some,
        res matches Ok(t) ==> png_decoded(bytes@) == Some((t.0@, t.1, t.2, t.3, t.4)),
        res matches Ok(t) ==> ColorType::spec_from_code(t.1) is Some && BitDepth::spec_from_code(
            t.2,
        ) is Some,
{
    let mut reader = png::Decoder::new(bytes).read_info()?;
    let mut buf = vec![0; reader.output_buffer_size()];
    let info = reader.next_frame(&mut buf)?;
    buf.truncate(info.buffer_size());
    Ok((buf, info.color_type as u8, info.bit_depth as u8, info.width, info.height))
}

/// Encodes `data` into a buffer with `png::Encoder::new` of `width` and `height`,
/// `set_color` and `set_depth` of the types that `png` numbers `color` and `depth`,
/// then `write_header` and `write_image_data`. Returns what the encoder wrote, also
/// where a step fails (the signature and header, and the end that its writer writes
/// when dropped), with the outcome of the last step run; the two are what
/// [`png_encoded`] names. `write_image_data` multiplies the row length by the height
/// unchecked, so the sizes must fit.
#[verifier::external_body]
fn png_encode(data: &[u8], width: u32, height: u32, color: u8, depth: u8) -> (res: (Vec<u8>, Result<(), png::EncodingError>))
    requires
        ColorType::spec_from_code(color) is Some,
        BitDepth::spec_from_code(depth) is Some,
        png_encoder_sizes_fit(
            ColorType::spec_from_code(color).unwrap(),
            BitDepth::spec_from_code(depth).unwrap(),
            width,
            height,
        ),
    ensures
        png_encoded(data@, width, height, color, depth) == (res.0@, res.1 is Ok),
{
    let mut out: Vec<u8> = Vec::new();
    let result = {
        let mut encoder = png::Encoder::new(&mut out, width, height);
        encoder.set_color(png::ColorType::from_u8(color).unwrap());
        encoder.set_depth(png::BitDepth::from_u8(depth).unwrap());
        match encoder.write_header() {
            Ok(mut writer) => writer.write_image_data(data),
            Err(e) => Err(e),
        }
    };
    (out, result)
}

/// Reads the header of `bytes` with `png::Decoder::new` and `read_info`, and takes
/// the `palette` and `trns` tables of its `info`. The result is what
/// [`png_palette_tables`] names.
#[verifier::external_body]
fn png_palette(bytes: &[u8]) -> (res: Result<(Option<Vec<u8>>, Option<Vec<u8>>), png::DecodingError>)
    ensures
        res is Ok <==> png_palette_tables(bytes@) is Some,
        res matches Ok(t) ==> png_palette_tables(bytes@) == Some((opt_bytes(t.0), opt_bytes(t.1))),
{
    let reader = png::Decoder::new(bytes).read_info()?;
    let info = reader.info();
    Ok((info.palette.as_ref().map(|p| p.to_vec()), info.trns.as_ref().map(|t| t.to_vec())))
}

impl PNGImage {
    /// The image of decoded data, colour type, bit depth, width and height, the
    /// colour type and bit depth given by the numbers that the PNG format gives them;
    /// `None` where a number stands for no colour type or no bit depth.
    pub fn from_decoded(data: Vec<u8>, color: u8, depth: u8, width: u32, height: u32) -> (r: Option<PNGImage>)
        ensures
            r is Some <==> (ColorType::spec_from_code(color) is Some && BitDepth::spec_from_code(depth) is Some),
            r matches Some(img) ==> {
                &&& img.data@ == data@
                &&& Some(img.color_type) == ColorType::spec_from_code(color)
                &&& Some(img.bit_depth) == BitDepth::spec_from_code(depth)
                &&& img.width == width
                &&& img.height == height
            },
    {
        match (ColorType::from_code(color), BitDepth::from_code(depth)) {
            (Some(color_type), Some(bit_depth)) => Some(PNGImage { data, color_type, bit_depth, width, height }),
            _ => None,
        }
    }

    /// Decodes the bytes of a PNG file into an image of its first frame.
    pub fn read(bytes: &[u8]) -> (res: Result<PNGImage, Error>)
        ensures
            match png_decoded(bytes@) {
                Some(t) => res matches Ok(img) && img.data@ == t.0 && img.color_type.spec_code() == t.1
                    && img.bit_depth.spec_code() == t.2 && img.width == t.3 && img.height == t.4,
                None => res matches Err(Error::PngDecoding(_)),
            },
    {
        match png_decode(bytes) {
            Err(e) => Err(Error::PngDecoding(e)),
            Ok((data, color, depth, width, height)) => match PNGImage::from_decoded(data, color, depth, width, height) {
                Some(img) => Ok(img),
                None => vstd::pervasive::unreached(),
            },
        }
    }

    /// Whether the `png` crate's encoder can count the bytes of this image without
    /// overflow (see [`png_encoder_sizes_fit`]); [`PNGImage::as_png`] needs it.
    pub fn png_sizes_fit(&self) -> (r: bool)
        ensures
            r == png_encoder_sizes_fit(self.color_type, self.bit_depth, self.width, self.height),
    {
        let combination_invalid = match (self.color_type, self.bit_depth) {
            (ColorType::Rgb, BitDepth::One)
            | (ColorType::Rgb, BitDepth::Two)
            | (ColorType::Rgb, BitDepth::Four)
            | (ColorType::GrayscaleAlpha, BitDepth::One)
            | (ColorType::GrayscaleAlpha, BitDepth::Two)
            | (ColorType::GrayscaleAlpha, BitDepth::Four)
            | (ColorType::Rgba, BitDepth::One)
            | (ColorType::Rgba, BitDepth::Two)
            | (ColorType::Rgba, BitDepth::Four)
            | (ColorType::Indexed, _) => true,
            _ => false,
        };
        if self.width == 0 || self.height == 0 || combination_invalid {
            return true;
        }
        let samples = match (self.width as usize).checked_mul(self.color_type.samples()) {
            Some(n) => n,
            None => {
                return false;
            },
        };
        let row: usize = match self.bit_depth {
            BitDepth::Sixteen => match samples.checked_mul(2) {
                Some(n) => n,
                None => {
                    return false;
                },
            },
            BitDepth::Eight => samples,
            depth => {
                let per_byte: usize = match depth {
                    BitDepth::One => 8,
                    BitDepth::Two => 4,
                    _ => 2,
                };
                samples / per_byte + if samples % per_byte > 0 { 1 } else { 0 }
            },
        };
        if row.checked_add(1).is_none() {
            return false;
        }
        row.checked_mul(self.height as usize).is_some()
    }

    /// Writes the image as a PNG file. Where encoding fails, what the encoder wrote
    /// before failing stays written.
    pub fn as_png(&self, writer: &mut Vec<u8>) -> (res: Result<(), Error>)
        requires
            png_encoder_sizes_fit(self.color_type, self.bit_depth, self.width, self.height),
        ensures
            ({
                let (bytes, ok) = png_encoded(
                    self.data@,
                    self.width,
                    self.height,
                    self.color_type.spec_code(),
                    self.bit_depth.spec_code(),
                );
                &&& final(writer)@ == old(writer)@ + bytes
                &&& ok ==> res is Ok
                &&& !ok ==> res matches Err(Error::PngEncoding(_))
            }),
    {
        let (bytes, result) = png_encode(&self.data, self.width, self.height, self.color_type.code(), self.bit_depth.code());
        push_all(&bytes, writer);
        match result {
            Ok(()) => Ok(()),
            Err(e) => Err(Error::PngEncoding(e)),
        }
    }
}

/// Reads the palette of a PNG file and writes it as a colour table of RGBA5551
/// texels, most significant byte first: each palette entry with the alpha of the
/// transparency table where the file has one (as many entries as both tables
/// have), opaque where it has none.
pub fn create_palette_from_png(bytes: &[u8], writer: &mut Vec<u8>) -> (res: Result<(), Error>)
    ensures
        match png_palette_tables(bytes@) {
            None => res matches Err(Error::PngDecoding(_)) && final(writer)@ == old(writer)@,
            Some((None, _)) => res matches Err(Error::MissingPngPalette) && final(writer)@ == old(writer)@,
            Some((Some(rgb), alpha)) => res is Ok && final(writer)@ == old(writer)@ + be_words(
                palette_words(rgb, alpha),
            ),
        },
{
    match png_palette(bytes) {
        Err(e) => Err(Error::PngDecoding(e)),
        Ok((None, _)) => Err(Error::MissingPngPalette),
        Ok((Some(rgb), alpha)) => {
            match alpha {
                Some(a) => palette_to_rgba16(rgb.as_slice(), Some(a.as_slice()), writer),
                None => palette_to_rgba16(rgb.as_slice(), None, writer),
            }
            Ok(())
        },
    }
}

/// Appends all of `data` to `out`.
fn push_all(data: &Vec<u8>, out: &mut Vec<u8>)
    ensures
        final(out)@ == old(out)@ + data@,
{
    let ghost start = out@;
    out.extend_from_slice(data.as_slice());
    assert forall|i: int| start.len() <= i < out@.len() implies out@[i] == data@[i - start.len()] by {
        assert(cloned::<u8>(data@[i - start.len()], out@[i]));
    }
    assert(out@ =~= start + data@);
}

/// The top four bits of a byte.
pub fn u8_to_u4(x: u8) -> (r: u8)
    ensures
        r == x >> 4u8,
        r == x / 16,
{
    assert(x >> 4u8 == x / 16) by (bit_vector);
    x >> 4u8
}

} // verus!
