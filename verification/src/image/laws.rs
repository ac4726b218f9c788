//! What each texture format's bytes hold, stated by the fields of each byte and
//! by how the conversions of joined data relate to the conversions of its parts.
use vstd::prelude::*;
use crate::color::lemma_rgba5551_fields;
use crate::image::texel::{
    be_words, gray8_to_i4, gray_alpha_to_ia4, gray_alpha_to_ia8, luma_to_i4, pack_nibbles,
    palette_words, rgba_to_ia16, rgba_to_ia4, rgba_to_ia8, rgba_words,
};

verus! {

/// One for an alpha over half, zero otherwise.
pub open spec fn alpha_bit(a: u8) -> u8 {
    if a > 127 {
        1
    } else {
        0
    }
}

proof fn lemma_pack_byte(a: u8, b: u8)
    ensures
        b < 16 ==> ((a << 4u8) | b) == (a % 16) * 16 + b,
        ((a << 4u8) | b) % 16 == b % 16,
{
    assert(b < 16 ==> ((a << 4u8) | b) == (a % 16) * 16 + b) by (bit_vector);
    assert(((a << 4u8) | b) % 16 == b % 16) by (bit_vector);
}

proof fn lemma_i4_byte(a: u8, b: u8)
    ensures
        ((a << 4u8) | (b >> 4u8)) / 16 == a % 16,
        ((a << 4u8) | (b >> 4u8)) % 16 == b / 16,
{
    assert(((a << 4u8) | (b >> 4u8)) / 16 == a % 16) by (bit_vector);
    assert(((a << 4u8) | (b >> 4u8)) % 16 == b / 16) by (bit_vector);
}

proof fn lemma_top_nibbles_byte(a: u8, b: u8)
    ensures
        (((a >> 4u8) << 4u8) | (b >> 4u8)) / 16 == a / 16,
        (((a >> 4u8) << 4u8) | (b >> 4u8)) % 16 == b / 16,
{
    assert((((a >> 4u8) << 4u8) | (b >> 4u8)) / 16 == a / 16) by (bit_vector);
    assert((((a >> 4u8) << 4u8) | (b >> 4u8)) % 16 == b / 16) by (bit_vector);
}

proof fn lemma_ia4_fields(i1: u8, a1: u8, i2: u8, a2: u8)
    ensures
        ({
            let v = (((((i1 >> 5u8) << 1u8) | alpha_bit(a1)) << 4u8) | ((((i2 >> 5u8) << 1u8)
                | alpha_bit(a2)) & 0xFu8));
            &&& v / 32 == i1 / 32
            &&& (v / 16) % 2 == alpha_bit(a1)
            &&& (v / 2) % 8 == i2 / 32
            &&& v % 2 == alpha_bit(a2)
        }),
{
    let x = alpha_bit(a1);
    let y = alpha_bit(a2);
    assert({
        let v = (((((i1 >> 5u8) << 1u8) | x) << 4u8) | ((((i2 >> 5u8) << 1u8) | y) & 0xFu8));
        &&& v / 32 == i1 / 32
        &&& (v / 16) % 2 == x
        &&& (v / 2) % 8 == i2 / 32
        &&& v % 2 == y
    }) by (bit_vector)
        requires
            x < 2,
            y < 2,
    ;
}

proof fn lemma_ia8_byte(a: u8, b: u8)
    ensures
        ((a << 4u8) | (b & 0x0Fu8)) / 16 == a % 16,
        ((a << 4u8) | (b & 0x0Fu8)) % 16 == b % 16,
{
    assert(((a << 4u8) | (b & 0x0Fu8)) / 16 == a % 16) by (bit_vector);
    assert(((a << 4u8) | (b & 0x0Fu8)) % 16 == b % 16) by (bit_vector);
}

proof fn lemma_ia8_rgba_byte(i: u8, a: u8)
    ensures
        ((((i >> 4u8) & 0xFu8) << 4u8) | ((a >> 4u8) & 0xFu8)) / 16 == i / 16,
        ((((i >> 4u8) & 0xFu8) << 4u8) | ((a >> 4u8) & 0xFu8)) % 16 == a / 16,
{
    assert(((((i >> 4u8) & 0xFu8) << 4u8) | ((a >> 4u8) & 0xFu8)) / 16 == i / 16)
        by (bit_vector);
    assert(((((i >> 4u8) & 0xFu8) << 4u8) | ((a >> 4u8) & 0xFu8)) % 16 == a / 16)
        by (bit_vector);
}

/// CI4 of 8-bit indices (and I8 of 4-bit grayscale): one byte for each whole pair of
/// bytes; byte `j` holds the low four bits of byte `2j` above byte `2j + 1`, which
/// makes it `16 * (d[2j] % 16) + d[2j + 1]` where that second byte is below 16.
pub proof fn lemma_pack_nibbles_fields(d: Seq<u8>)
    ensures
        pack_nibbles(d).len() == d.len() / 2,
        forall|j: int|
            0 <= j < d.len() / 2 ==> {
                &&& #[trigger] pack_nibbles(d)[j] % 16 == d[2 * j + 1] % 16
                &&& pack_nibbles(d)[j] == (d[2 * j] << 4u8) | d[2 * j + 1]
                &&& d[2 * j + 1] < 16 ==> pack_nibbles(d)[j] == (d[2 * j] % 16) * 16 + d[2 * j
                    + 1]
            },
{
    assert forall|j: int| 0 <= j < d.len() / 2 implies {
        &&& #[trigger] pack_nibbles(d)[j] % 16 == d[2 * j + 1] % 16
        &&& pack_nibbles(d)[j] == (d[2 * j] << 4u8) | d[2 * j + 1]
        &&& d[2 * j + 1] < 16 ==> pack_nibbles(d)[j] == (d[2 * j] % 16) * 16 + d[2 * j + 1]
    } by {
        lemma_pack_byte(d[2 * j], d[2 * j + 1]);
    }
}

/// Packing joined data, the first part of whole pairs, gives the packing of the first
/// part followed by that of the second.
pub proof fn lemma_pack_nibbles_concat(d1: Seq<u8>, d2: Seq<u8>)
    requires
        d1.len() % 2 == 0,
    ensures
        pack_nibbles(d1 + d2) == pack_nibbles(d1) + pack_nibbles(d2),
{
    lemma_pack_nibbles_fields(d1);
    lemma_pack_nibbles_fields(d2);
    lemma_pack_nibbles_fields(d1 + d2);
    let d = d1 + d2;
    let n1 = d1.len() / 2;
    assert forall|j: int| 0 <= j < pack_nibbles(d).len() implies pack_nibbles(d)[j] == (
    pack_nibbles(d1) + pack_nibbles(d2))[j] by {
        if j < n1 {
            assert(d[2 * j] == d1[2 * j] && d[2 * j + 1] == d1[2 * j + 1]);
        } else {
            assert(d[2 * j] == d2[2 * (j - n1)] && d[2 * j + 1] == d2[2 * (j - n1) + 1]);
        }
    }
    assert(pack_nibbles(d) =~= pack_nibbles(d1) + pack_nibbles(d2));
}

/// I4 of 8-bit grayscale: one byte for each whole pair of pixels; byte `j` holds the
/// low four bits of pixel `2j` above the top four bits of pixel `2j + 1`.
pub proof fn lemma_gray8_to_i4_fields(d: Seq<u8>)
    ensures
        gray8_to_i4(d).len() == d.len() / 2,
        forall|j: int|
            0 <= j < d.len() / 2 ==> {
                &&& #[trigger] gray8_to_i4(d)[j] / 16 == d[2 * j] % 16
                &&& gray8_to_i4(d)[j] % 16 == d[2 * j + 1] / 16
            },
{
    assert forall|j: int| 0 <= j < d.len() / 2 implies {
        &&& #[trigger] gray8_to_i4(d)[j] / 16 == d[2 * j] % 16
        &&& gray8_to_i4(d)[j] % 16 == d[2 * j + 1] / 16
    } by {
        lemma_i4_byte(d[2 * j], d[2 * j + 1]);
    }
}

/// I4 of joined 8-bit grayscale data, the first part of whole pairs, is that of the
/// first part followed by that of the second.
pub proof fn lemma_gray8_to_i4_concat(d1: Seq<u8>, d2: Seq<u8>)
    requires
        d1.len() % 2 == 0,
    ensures
        gray8_to_i4(d1 + d2) == gray8_to_i4(d1) + gray8_to_i4(d2),
{
    let d = d1 + d2;
    lemma_gray8_to_i4_fields(d1);
    lemma_gray8_to_i4_fields(d2);
    lemma_gray8_to_i4_fields(d);
    let n1 = d1.len() / 2;
    assert forall|j: int| 0 <= j < gray8_to_i4(d).len() implies gray8_to_i4(d)[j] == (
    gray8_to_i4(d1) + gray8_to_i4(d2))[j] by {
        if j < n1 {
            assert(d[2 * j] == d1[2 * j] && d[2 * j + 1] == d1[2 * j + 1]);
        } else {
            assert(d[2 * j] == d2[2 * (j - n1)] && d[2 * j + 1] == d2[2 * (j - n1) + 1]);
        }
    }
    assert(gray8_to_i4(d) =~= gray8_to_i4(d1) + gray8_to_i4(d2));
}

/// IA4 of 8-bit grayscale-alpha data: one byte for each whole pair of pixels (four
/// bytes); its top three bits are those of intensity `d[4j]`, then a bit for alpha
/// `d[4j + 1]` over half, then the top three bits of intensity `d[4j + 2]`, then a
/// bit for alpha `d[4j + 3]` over half.
pub proof fn lemma_gray_alpha_to_ia4_fields(d: Seq<u8>)
    ensures
        gray_alpha_to_ia4(d).len() == d.len() / 4,
        forall|j: int|
            0 <= j < d.len() / 4 ==> {
                &&& #[trigger] gray_alpha_to_ia4(d)[j] / 32 == d[4 * j] / 32
                &&& (gray_alpha_to_ia4(d)[j] / 16) % 2 == alpha_bit(d[4 * j + 1])
                &&& (gray_alpha_to_ia4(d)[j] / 2) % 8 == d[4 * j + 2] / 32
                &&& gray_alpha_to_ia4(d)[j] % 2 == alpha_bit(d[4 * j + 3])
            },
{
    assert forall|j: int| 0 <= j < d.len() / 4 implies {
        &&& #[trigger] gray_alpha_to_ia4(d)[j] / 32 == d[4 * j] / 32
        &&& (gray_alpha_to_ia4(d)[j] / 16) % 2 == alpha_bit(d[4 * j + 1])
        &&& (gray_alpha_to_ia4(d)[j] / 2) % 8 == d[4 * j + 2] / 32
        &&& gray_alpha_to_ia4(d)[j] % 2 == alpha_bit(d[4 * j + 3])
    } by {
        lemma_ia4_fields(d[4 * j], d[4 * j + 1], d[4 * j + 2], d[4 * j + 3]);
    }
}

/// IA4 of joined grayscale-alpha data, the first part of whole pairs of pixels, is
/// that of the first part followed by that of the second.
pub proof fn lemma_gray_alpha_to_ia4_concat(d1: Seq<u8>, d2: Seq<u8>)
    requires
        d1.len() % 4 == 0,
    ensures
        gray_alpha_to_ia4(d1 + d2) == gray_alpha_to_ia4(d1) + gray_alpha_to_ia4(d2),
{
    let d = d1 + d2;
    let n1 = d1.len() / 4;
    assert forall|j: int| 0 <= j < gray_alpha_to_ia4(d).len() implies gray_alpha_to_ia4(d)[j] == (
    gray_alpha_to_ia4(d1) + gray_alpha_to_ia4(d2))[j] by {
        if j < n1 {
            assert(d[4 * j] == d1[4 * j] && d[4 * j + 1] == d1[4 * j + 1] && d[4 * j + 2] == d1[4
                * j + 2] && d[4 * j + 3] == d1[4 * j + 3]);
        } else {
            let k = j - n1;
            assert(d[4 * j] == d2[4 * k] && d[4 * j + 1] == d2[4 * k + 1] && d[4 * j + 2] == d2[4
                * k + 2] && d[4 * j + 3] == d2[4 * k + 3]);
        }
    }
    assert(gray_alpha_to_ia4(d) =~= gray_alpha_to_ia4(d1) + gray_alpha_to_ia4(d2));
}

/// IA8 of 8-bit grayscale-alpha data: one byte for each pixel (two bytes); it holds
/// the low four bits of intensity `d[2j]` above the low four bits of alpha `d[2j + 1]`.
pub proof fn lemma_gray_alpha_to_ia8_fields(d: Seq<u8>)
    ensures
        gray_alpha_to_ia8(d).len() == d.len() / 2,
        forall|j: int|
            0 <= j < d.len() / 2 ==> {
                &&& #[trigger] gray_alpha_to_ia8(d)[j] / 16 == d[2 * j] % 16
                &&& gray_alpha_to_ia8(d)[j] % 16 == d[2 * j + 1] % 16
            },
{
    assert forall|j: int| 0 <= j < d.len() / 2 implies {
        &&& #[trigger] gray_alpha_to_ia8(d)[j] / 16 == d[2 * j] % 16
        &&& gray_alpha_to_ia8(d)[j] % 16 == d[2 * j + 1] % 16
    } by {
        lemma_ia8_byte(d[2 * j], d[2 * j + 1]);
    }
}

/// IA8 of joined grayscale-alpha data, the first part of whole pixels, is that of the
/// first part followed by that of the second.
pub proof fn lemma_gray_alpha_to_ia8_concat(d1: Seq<u8>, d2: Seq<u8>)
    requires
        d1.len() % 2 == 0,
    ensures
        gray_alpha_to_ia8(d1 + d2) == gray_alpha_to_ia8(d1) + gray_alpha_to_ia8(d2),
{
    let d = d1 + d2;
    lemma_gray_alpha_to_ia8_fields(d1);
    lemma_gray_alpha_to_ia8_fields(d2);
    lemma_gray_alpha_to_ia8_fields(d);
    let n1 = d1.len() / 2;
    assert forall|j: int| 0 <= j < gray_alpha_to_ia8(d).len() implies gray_alpha_to_ia8(d)[j] == (
    gray_alpha_to_ia8(d1) + gray_alpha_to_ia8(d2))[j] by {
        if j < n1 {
            assert(d[2 * j] == d1[2 * j] && d[2 * j + 1] == d1[2 * j + 1]);
        } else {
            assert(d[2 * j] == d2[2 * (j - n1)] && d[2 * j + 1] == d2[2 * (j - n1) + 1]);
        }
    }
    assert(gray_alpha_to_ia8(d) =~= gray_alpha_to_ia8(d1) + gray_alpha_to_ia8(d2));
}

/// I4 of RGB or RGBA pixels: for each of the first `n` pairs of pixels one byte, the
/// top four bits of the intensity of pixel `2j` above those of pixel `2j + 1`.
pub proof fn lemma_luma_to_i4_fields(l: Seq<u8>, n: int)
    requires
        0 <= n,
    ensures
        luma_to_i4(l, n).len() == n,
        forall|j: int|
            0 <= j < n ==> {
                &&& #[trigger] luma_to_i4(l, n)[j] / 16 == l[2 * j] / 16
                &&& luma_to_i4(l, n)[j] % 16 == l[2 * j + 1] / 16
            },
{
    assert forall|j: int| 0 <= j < n implies {
        &&& #[trigger] luma_to_i4(l, n)[j] / 16 == l[2 * j] / 16
        &&& luma_to_i4(l, n)[j] % 16 == l[2 * j + 1] / 16
    } by {
        lemma_top_nibbles_byte(l[2 * j], l[2 * j + 1]);
    }
}

/// IA4 of RGBA pixels: one byte for each whole pair of pixels (eight bytes); its top
/// three bits are those of the intensity of pixel `2j`, then a bit for that pixel's
/// alpha over half, then the top three bits of the intensity of pixel `2j + 1`, then a
/// bit for its alpha over half.
pub proof fn lemma_rgba_to_ia4_fields(d: Seq<u8>, l: Seq<u8>)
    ensures
        rgba_to_ia4(d, l).len() == d.len() / 8,
        forall|j: int|
            0 <= j < d.len() / 8 ==> {
                &&& #[trigger] rgba_to_ia4(d, l)[j] / 32 == l[2 * j] / 32
                &&& (rgba_to_ia4(d, l)[j] / 16) % 2 == alpha_bit(d[8 * j + 3])
                &&& (rgba_to_ia4(d, l)[j] / 2) % 8 == l[2 * j + 1] / 32
                &&& rgba_to_ia4(d, l)[j] % 2 == alpha_bit(d[8 * j + 7])
            },
{
    assert forall|j: int| 0 <= j < d.len() / 8 implies {
        &&& #[trigger] rgba_to_ia4(d, l)[j] / 32 == l[2 * j] / 32
        &&& (rgba_to_ia4(d, l)[j] / 16) % 2 == alpha_bit(d[8 * j + 3])
        &&& (rgba_to_ia4(d, l)[j] / 2) % 8 == l[2 * j + 1] / 32
        &&& rgba_to_ia4(d, l)[j] % 2 == alpha_bit(d[8 * j + 7])
    } by {
        lemma_ia4_fields(l[2 * j], d[8 * j + 3], l[2 * j + 1], d[8 * j + 7]);
    }
}

/// IA8 of RGBA pixels: one byte for each pixel, the top four bits of its intensity
/// above the top four bits of its alpha.
pub proof fn lemma_rgba_to_ia8_fields(d: Seq<u8>, l: Seq<u8>)
    ensures
        rgba_to_ia8(d, l).len() == d.len() / 4,
        forall|j: int|
            0 <= j < d.len() / 4 ==> {
                &&& #[trigger] rgba_to_ia8(d, l)[j] / 16 == l[j] / 16
                &&& rgba_to_ia8(d, l)[j] % 16 == d[4 * j + 3] / 16
            },
{
    assert forall|j: int| 0 <= j < d.len() / 4 implies {
        &&& #[trigger] rgba_to_ia8(d, l)[j] / 16 == l[j] / 16
        &&& rgba_to_ia8(d, l)[j] % 16 == d[4 * j + 3] / 16
    } by {
        lemma_ia8_rgba_byte(l[j], d[4 * j + 3]);
    }
}

/// IA16 of RGBA pixels: two bytes for each pixel, its intensity then its alpha.
pub proof fn lemma_rgba_to_ia16_fields(d: Seq<u8>, l: Seq<u8>)
    ensures
        rgba_to_ia16(d, l).len() == 2 * (d.len() / 4),
        forall|j: int|
            0 <= j < d.len() / 4 ==> #[trigger] rgba_to_ia16(d, l)[2 * j] == l[j] && rgba_to_ia16(
                d,
                l,
            )[2 * j + 1] == d[4 * j + 3],
{
}

/// Each word as two bytes, most significant first: bytes `2j` and `2j + 1` make word
/// `j` again.
pub proof fn lemma_be_words_fields(ws: Seq<u16>)
    ensures
        be_words(ws).len() == 2 * ws.len(),
        forall|j: int|
            0 <= j < ws.len() ==> #[trigger] be_words(ws)[2 * j] * 256 + be_words(ws)[2 * j + 1]
                == ws[j],
{
}

/// The RGBA16 word of each RGBA pixel: five bits each of red, green and blue (the top
/// five bits of each channel), then a bit set exactly for full opacity.
pub proof fn lemma_rgba_words_fields(d: Seq<u8>)
    ensures
        rgba_words(d).len() == d.len() / 4,
        forall|j: int|
            0 <= j < d.len() / 4 ==> {
                &&& #[trigger] rgba_words(d)[j] >> 11u16 == (d[4 * j] >> 3u8) as u16
                &&& (rgba_words(d)[j] >> 6u16) & 0x1Fu16 == (d[4 * j + 1] >> 3u8) as u16
                &&& (rgba_words(d)[j] >> 1u16) & 0x1Fu16 == (d[4 * j + 2] >> 3u8) as u16
                &&& rgba_words(d)[j] & 1u16 == (if d[4 * j + 3] == 255 { 1u16 } else { 0u16 })
            },
{
    assert forall|j: int| 0 <= j < d.len() / 4 implies {
        &&& #[trigger] rgba_words(d)[j] >> 11u16 == (d[4 * j] >> 3u8) as u16
        &&& (rgba_words(d)[j] >> 6u16) & 0x1Fu16 == (d[4 * j + 1] >> 3u8) as u16
        &&& (rgba_words(d)[j] >> 1u16) & 0x1Fu16 == (d[4 * j + 2] >> 3u8) as u16
        &&& rgba_words(d)[j] & 1u16 == (if d[4 * j + 3] == 255 { 1u16 } else { 0u16 })
    } by {
        lemma_rgba5551_fields(d[4 * j], d[4 * j + 1], d[4 * j + 2], d[4 * j + 3]);
    }
}

/// The colour table of a palette: one word for each whole entry of three bytes (and,
/// with a transparency table, no more than it has entries); five bits each of red,
/// green and blue, then a bit set exactly where the entry's alpha (opaque without a
/// transparency table) is full.
pub proof fn lemma_palette_words_fields(rgb: Seq<u8>, alpha: Option<Seq<u8>>)
    ensures
        palette_words(rgb, alpha).len() == match alpha {
            Some(a) => if rgb.len() / 3 <= a.len() {
                rgb.len() / 3
            } else {
                a.len()
            },
            None => rgb.len() / 3,
        },
        forall|j: int|
            0 <= j < palette_words(rgb, alpha).len() ==> {
                &&& #[trigger] palette_words(rgb, alpha)[j] >> 11u16 == (rgb[3 * j] >> 3u8) as u16
                &&& (palette_words(rgb, alpha)[j] >> 6u16) & 0x1Fu16 == (rgb[3 * j + 1] >> 3u8) as u16
                &&& (palette_words(rgb, alpha)[j] >> 1u16) & 0x1Fu16 == (rgb[3 * j + 2] >> 3u8) as u16
                &&& palette_words(rgb, alpha)[j] & 1u16 == (if (match alpha {
                    Some(a) => a[j],
                    None => 255u8,
                }) == 255 {
                    1u16
                } else {
                    0u16
                })
            },
{
    assert forall|j: int| 0 <= j < palette_words(rgb, alpha).len() implies {
        &&& #[trigger] palette_words(rgb, alpha)[j] >> 11u16 == (rgb[3 * j] >> 3u8) as u16
        &&& (palette_words(rgb, alpha)[j] >> 6u16) & 0x1Fu16 == (rgb[3 * j + 1] >> 3u8) as u16
        &&& (palette_words(rgb, alpha)[j] >> 1u16) & 0x1Fu16 == (rgb[3 * j + 2] >> 3u8) as u16
        &&& palette_words(rgb, alpha)[j] & 1u16 == (if (match alpha {
            Some(a) => a[j],
            None => 255u8,
        }) == 255 {
            1u16
        } else {
            0u16
        })
    } by {
        let a = match alpha {
            Some(t) => t[j],
            None => 255u8,
        };
        lemma_rgba5551_fields(rgb[3 * j], rgb[3 * j + 1], rgb[3 * j + 2], a);
    }
}

} // verus!
