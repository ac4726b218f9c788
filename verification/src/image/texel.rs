//! What each conversion into a native texture format makes of the bytes of an
//! image, stated byte by byte.
//!
//! `d` is the image data and `l` the intensity of each pixel of an RGB or RGBA
//! image: `l[p]` is the intensity of the pixel whose bytes start at `p` times the
//! number of samples of a pixel.
use vstd::prelude::*;
use crate::color::{rgba5551, Color};

verus! {

/// Two bytes into one: the low four bits of the first above all eight bits of the
/// second, for each pair of bytes (a trailing odd byte is dropped).
pub open spec fn pack_nibbles(d: Seq<u8>) -> Seq<u8> {
    Seq::new(d.len() / 2, |j: int| (d[2 * j] << 4u8) | d[2 * j + 1])
}

/// Two 8-bit intensities into one byte of two 4-bit ones, for each pair of bytes.
pub open spec fn gray8_to_i4(d: Seq<u8>) -> Seq<u8> {
    Seq::new(d.len() / 2, |j: int| (d[2 * j] << 4u8) | (d[2 * j + 1] >> 4u8))
}

/// The top four bits of the intensities of pixels `2j` and `2j + 1`, for `j` below `n`.
pub open spec fn luma_to_i4(l: Seq<u8>, n: int) -> Seq<u8> {
    Seq::new(n as nat, |j: int| ((l[2 * j] >> 4u8) << 4u8) | (l[2 * j + 1] >> 4u8))
}

/// The 4-bit intensity-alpha texel: three bits of intensity above one bit that is
/// set for an alpha over half.
pub open spec fn ia4_nibble(i: u8, a: u8) -> u8 {
    ((i >> 5u8) << 1u8) | (if a > 127 { 1u8 } else { 0u8 })
}

/// Two 4-bit texels into one byte, the first above.
pub open spec fn ia4_byte(hi: u8, lo: u8) -> u8 {
    (hi << 4u8) | (lo & 0xFu8)
}

/// Two grayscale-alpha pixels of two bytes each into one byte of two IA4 texels.
pub open spec fn gray_alpha_to_ia4(d: Seq<u8>) -> Seq<u8> {
    Seq::new(
        d.len() / 4,
        |j: int|
            ia4_byte(ia4_nibble(d[4 * j], d[4 * j + 1]), ia4_nibble(d[4 * j + 2], d[4 * j + 3])),
    )
}

/// Two RGBA pixels into one byte of two IA4 texels, from their intensities and alphas.
pub open spec fn rgba_to_ia4(d: Seq<u8>, l: Seq<u8>) -> Seq<u8> {
    Seq::new(
        d.len() / 8,
        |j: int| ia4_byte(ia4_nibble(l[2 * j], d[8 * j + 3]), ia4_nibble(l[2 * j + 1], d[8 * j + 7])),
    )
}

/// A grayscale-alpha pixel into one IA8 texel: the low four bits of the intensity
/// above the low four bits of the alpha.
pub open spec fn gray_alpha_to_ia8(d: Seq<u8>) -> Seq<u8> {
    Seq::new(d.len() / 2, |j: int| (d[2 * j] << 4u8) | (d[2 * j + 1] & 0x0Fu8))
}

/// An RGBA pixel into one IA8 texel: the top four bits of its intensity above the
/// top four bits of its alpha.
pub open spec fn rgba_to_ia8(d: Seq<u8>, l: Seq<u8>) -> Seq<u8> {
    Seq::new(
        d.len() / 4,
        |j: int| (((l[j] >> 4u8) & 0xFu8) << 4u8) | ((d[4 * j + 3] >> 4u8) & 0xFu8),
    )
}

/// An RGBA pixel into two bytes: its intensity, then its alpha.
pub open spec fn rgba_to_ia16(d: Seq<u8>, l: Seq<u8>) -> Seq<u8> {
    Seq::new(
        2 * (d.len() / 4),
        |i: int|
            if i % 2 == 0 {
                l[i / 2]
            } else {
                d[4 * (i / 2) + 3]
            },
    )
}

/// The first `n` bits of the I1 byte of pixels `8j` to `8j + 7`: bit `7 - k` is set
/// where pixel `8j + k` has an intensity over half.
pub open spec fn i1_bits(p: Seq<u8>, j: int, n: int) -> u8
    decreases n,
{
    if n <= 0 {
        0u8
    } else {
        let b = i1_bits(p, j, n - 1);
        if p[8 * j + n - 1] > 127 {
            b | (1u8 << ((7 - (n - 1)) as u8))
        } else {
            b
        }
    }
}

/// Eight 8-bit intensities into one byte of eight 1-bit ones, the first the top bit.
pub open spec fn i1_pack(p: Seq<u8>) -> Seq<u8> {
    Seq::new(p.len() / 8, |j: int| i1_bits(p, j, 8))
}

/// Each 16-bit word as two bytes, most significant first.
pub open spec fn be_words(ws: Seq<u16>) -> Seq<u8> {
    Seq::new(
        2 * ws.len(),
        |i: int|
            if i % 2 == 0 {
                (ws[i / 2] / 256) as u8
            } else {
                (ws[i / 2] % 256) as u8
            },
    )
}

/// The RGBA5551 texel of each RGBA pixel.
pub open spec fn rgba_words(d: Seq<u8>) -> Seq<u16> {
    Seq::new(d.len() / 4, |j: int| rgba5551(d[4 * j], d[4 * j + 1], d[4 * j + 2], d[4 * j + 3]))
}

/// The RGBA5551 texel of each palette entry: three bytes of red, green and blue,
/// with its alpha from the transparency table where there is one (as many entries as
/// both tables have), or opaque where there is none.
pub open spec fn palette_words(rgb: Seq<u8>, alpha: Option<Seq<u8>>) -> Seq<u16> {
    match alpha {
        Some(a) => Seq::new(
            if rgb.len() / 3 <= a.len() {
                rgb.len() / 3
            } else {
                a.len()
            },
            |j: int| rgba5551(rgb[3 * j], rgb[3 * j + 1], rgb[3 * j + 2], a[j]),
        ),
        None => Seq::new(rgb.len() / 3, |j: int| rgba5551(rgb[3 * j], rgb[3 * j + 1], rgb[3 * j + 2], 255)),
    }
}

/// Appends [`pack_nibbles`] of `data` to `out`.
pub(crate) fn push_pack_nibbles(data: &Vec<u8>, out: &mut Vec<u8>)
    ensures
        final(out)@ == old(out)@ + pack_nibbles(data@),
{
    let len = data.len();
    let n = len / 2;
    let ghost start = out@;
    let ghost want = pack_nibbles(data@);
    let mut j: usize = 0;
    while j < n
        invariant
            0 <= j <= n,
            len == data@.len(),
            n == len / 2,
            want == pack_nibbles(data@),
            out@ == start + want.take(j as int),
        decreases n - j,
    {
        assert(2 * j + 1 < data@.len());
        let b = (data[2 * j] << 4u8) | data[2 * j + 1];
        out.push(b);
        proof {
            assert(want.take(j + 1) =~= want.take(j as int).push(b));
        }
        j += 1;
    }
    assert(want.take(n as int) =~= want);
}

/// Appends [`gray8_to_i4`] of `data` to `out`.
pub(crate) fn push_gray8_to_i4(data: &Vec<u8>, out: &mut Vec<u8>)
    ensures
        final(out)@ == old(out)@ + gray8_to_i4(data@),
{
    let len = data.len();
    let n = len / 2;
    let ghost start = out@;
    let ghost want = gray8_to_i4(data@);
    let mut j: usize = 0;
    while j < n
        invariant
            0 <= j <= n,
            len == data@.len(),
            n == len / 2,
            want == gray8_to_i4(data@),
            out@ == start + want.take(j as int),
        decreases n - j,
    {
        assert(2 * j + 1 < data@.len());
        let b = (data[2 * j] << 4u8) | super::png_image::u8_to_u4(data[2 * j + 1]);
        out.push(b);
        proof {
            assert(want.take(j + 1) =~= want.take(j as int).push(b));
        }
        j += 1;
    }
    assert(want.take(n as int) =~= want);
}

/// Appends [`luma_to_i4`] of `luma` for `n` pairs of pixels to `out`.
pub(crate) fn push_luma_to_i4(luma: &Vec<u8>, n: usize, out: &mut Vec<u8>)
    requires
        2 * n <= luma@.len(),
    ensures
        final(out)@ == old(out)@ + luma_to_i4(luma@, n as int),
{
    let ghost start = out@;
    let ghost want = luma_to_i4(luma@, n as int);
    let llen = luma.len();
    let mut j: usize = 0;
    while j < n
        invariant
            0 <= j <= n,
            llen == luma@.len(),
            2 * n <= luma@.len(),
            want == luma_to_i4(luma@, n as int),
            out@ == start + want.take(j as int),
        decreases n - j,
    {
        let i1 = luma[2 * j];
        let i2 = luma[2 * j + 1];
        let b = (super::png_image::u8_to_u4(i1) << 4u8) | super::png_image::u8_to_u4(i2);
        out.push(b);
        proof {
            assert(want.take(j + 1) =~= want.take(j as int).push(b));
        }
        j += 1;
    }
    assert(want.take(n as int) =~= want);
}

/// The IA4 texel of an intensity and an alpha.
fn ia4_nibble_of(i: u8, a: u8) -> (r: u8)
    ensures
        r == ia4_nibble(i, a),
{
    let intensity = (i >> 5u8) << 1u8;
    let alpha: u8 = if a > 127 { 1 } else { 0 };
    intensity | alpha
}

/// Appends [`gray_alpha_to_ia4`] of `data` to `out`.
pub(crate) fn push_gray_alpha_to_ia4(data: &Vec<u8>, out: &mut Vec<u8>)
    ensures
        final(out)@ == old(out)@ + gray_alpha_to_ia4(data@),
{
    let len = data.len();
    let n = len / 4;
    let ghost start = out@;
    let ghost want = gray_alpha_to_ia4(data@);
    let mut j: usize = 0;
    while j < n
        invariant
            0 <= j <= n,
            len == data@.len(),
            n == len / 4,
            want == gray_alpha_to_ia4(data@),
            out@ == start + want.take(j as int),
        decreases n - j,
    {
        assert(4 * j + 3 < data@.len());
        let high = ia4_nibble_of(data[4 * j], data[4 * j + 1]);
        let low = ia4_nibble_of(data[4 * j + 2], data[4 * j + 3]);
        let b = (high << 4u8) | (low & 0xFu8);
        out.push(b);
        proof {
            assert(want.take(j + 1) =~= want.take(j as int).push(b));
        }
        j += 1;
    }
    assert(want.take(n as int) =~= want);
}

/// Appends [`rgba_to_ia4`] of `data` and `luma` to `out`.
pub(crate) fn push_rgba_to_ia4(data: &Vec<u8>, luma: &Vec<u8>, out: &mut Vec<u8>)
    requires
        luma@.len() >= data@.len() / 4,
    ensures
        final(out)@ == old(out)@ + rgba_to_ia4(data@, luma@),
{
    let len = data.len();
    let n = len / 8;
    let ghost start = out@;
    let ghost want = rgba_to_ia4(data@, luma@);
    let mut j: usize = 0;
    while j < n
        invariant
            0 <= j <= n,
            len == data@.len(),
            n == len / 8,
            luma@.len() >= len / 4,
            want == rgba_to_ia4(data@, luma@),
            out@ == start + want.take(j as int),
        decreases n - j,
    {
        assert(8 * j + 7 < data@.len());
        assert(2 * j + 1 < luma@.len());
        let high = ia4_nibble_of(luma[2 * j], data[8 * j + 3]);
        let low = ia4_nibble_of(luma[2 * j + 1], data[8 * j + 7]);
        let b = (high << 4u8) | (low & 0xFu8);
        out.push(b);
        proof {
            assert(want.take(j + 1) =~= want.take(j as int).push(b));
        }
        j += 1;
    }
    assert(want.take(n as int) =~= want);
}

/// Appends [`gray_alpha_to_ia8`] of `data` to `out`.
pub(crate) fn push_gray_alpha_to_ia8(data: &Vec<u8>, out: &mut Vec<u8>)
    ensures
        final(out)@ == old(out)@ + gray_alpha_to_ia8(data@),
{
    let len = data.len();
    let n = len / 2;
    let ghost start = out@;
    let ghost want = gray_alpha_to_ia8(data@);
    let mut j: usize = 0;
    while j < n
        invariant
            0 <= j <= n,
            len == data@.len(),
            n == len / 2,
            want == gray_alpha_to_ia8(data@),
            out@ == start + want.take(j as int),
        decreases n - j,
    {
        assert(2 * j + 1 < data@.len());
        let b = (data[2 * j] << 4u8) | (data[2 * j + 1] & 0x0Fu8);
        out.push(b);
        proof {
            assert(want.take(j + 1) =~= want.take(j as int).push(b));
        }
        j += 1;
    }
    assert(want.take(n as int) =~= want);
}

/// Appends [`rgba_to_ia8`] of `data` and `luma` to `out`.
pub(crate) fn push_rgba_to_ia8(data: &Vec<u8>, luma: &Vec<u8>, out: &mut Vec<u8>)
    requires
        luma@.len() >= data@.len() / 4,
    ensures
        final(out)@ == old(out)@ + rgba_to_ia8(data@, luma@),
{
    let len = data.len();
    let n = len / 4;
    let ghost start = out@;
    let ghost want = rgba_to_ia8(data@, luma@);
    let mut j: usize = 0;
    while j < n
        invariant
            0 <= j <= n,
            len == data@.len(),
            n == len / 4,
            luma@.len() >= n,
            want == rgba_to_ia8(data@, luma@),
            out@ == start + want.take(j as int),
        decreases n - j,
    {
        assert(4 * j + 3 < data@.len());
        let i = (luma[j] >> 4u8) & 0xFu8;
        let a = (data[4 * j + 3] >> 4u8) & 0xFu8;
        let b = (i << 4u8) | a;
        out.push(b);
        proof {
            assert(want.take(j + 1) =~= want.take(j as int).push(b));
        }
        j += 1;
    }
    assert(want.take(n as int) =~= want);
}

/// Appends [`rgba_to_ia16`] of `data` and `luma` to `out`.
pub(crate) fn push_rgba_to_ia16(data: &Vec<u8>, luma: &Vec<u8>, out: &mut Vec<u8>)
    requires
        luma@.len() >= data@.len() / 4,
    ensures
        final(out)@ == old(out)@ + rgba_to_ia16(data@, luma@),
{
    let len = data.len();
    let n = len / 4;
    let ghost start = out@;
    let ghost want = rgba_to_ia16(data@, luma@);
    let mut j: usize = 0;
    while j < n
        invariant
            0 <= j <= n,
            len == data@.len(),
            n == len / 4,
            luma@.len() >= n,
            want == rgba_to_ia16(data@, luma@),
            out@ == start + want.take(2 * j),
        decreases n - j,
    {
        assert(4 * j + 3 < data@.len());
        let i = luma[j];
        let a = data[4 * j + 3];
        out.push(i);
        out.push(a);
        proof {
            assert(want.take(2 * j + 2) =~= want.take(2 * j).push(i).push(a));
        }
        j += 1;
    }
    assert(want.take(2 * n) =~= want);
}

/// Appends the first `n` intensities to `out`.
pub(crate) fn push_luma_prefix(luma: &Vec<u8>, n: usize, out: &mut Vec<u8>)
    requires
        n <= luma@.len(),
    ensures
        final(out)@ == old(out)@ + luma@.take(n as int),
{
    let ghost start = out@;
    let mut j: usize = 0;
    while j < n
        invariant
            0 <= j <= n,
            n <= luma@.len(),
            out@ == start + luma@.take(j as int),
        decreases n - j,
    {
        out.push(luma[j]);
        proof {
            assert(luma@.take(j + 1) =~= luma@.take(j as int).push(luma@[j as int]));
        }
        j += 1;
    }
}

/// Appends [`i1_pack`] of `pixels` to `out`.
pub(crate) fn push_i1_pack(pixels: &Vec<u8>, out: &mut Vec<u8>)
    ensures
        final(out)@ == old(out)@ + i1_pack(pixels@),
{
    let len = pixels.len();
    let n = len / 8;
    let ghost start = out@;
    let ghost want = i1_pack(pixels@);
    let mut j: usize = 0;
    while j < n
        invariant
            0 <= j <= n,
            len == pixels@.len(),
            n == len / 8,
            want == i1_pack(pixels@),
            out@ == start + want.take(j as int),
        decreases n - j,
    {
        assert(8 * j + 7 < pixels@.len());
        let mut byte: u8 = 0;
        let mut i: usize = 0;
        while i < 8
            invariant
                0 <= i <= 8,
                j < n,
                len == pixels@.len(),
                n == len / 8,
                byte == i1_bits(pixels@, j as int, i as int),
            decreases 8 - i,
        {
            assert(8 * j + i < pixels@.len());
            if pixels[8 * j + i] > 127 {
                byte = byte | (1u8 << ((7 - i) as u8));
            }
            i += 1;
        }
        out.push(byte);
        proof {
            assert(want.take(j + 1) =~= want.take(j as int).push(byte));
        }
        j += 1;
    }
    assert(want.take(n as int) =~= want);
}

/// Calls `byteorder::BigEndian::write_u16` on a two-byte buffer, which, as its
/// source shows, stores the word's most significant byte first.
#[verifier::external_body]
fn be_bytes(v: u16) -> (r: (u8, u8))
    ensures
        r.0 == v / 256,
        r.1 == v % 256,
{
    let mut buf = [0u8; 2];
    <byteorder::BigEndian as byteorder::ByteOrder>::write_u16(&mut buf, v);
    (buf[0], buf[1])
}

/// Appends the RGBA5551 texel of `c`, most significant byte first.
fn push_rgba16(c: Color, out: &mut Vec<u8>)
    ensures
        final(out)@ == old(out)@ + seq![(c.spec_to_u16() / 256) as u8, (c.spec_to_u16() % 256) as u8],
{
    let (hi, lo) = be_bytes(c.to_u16());
    out.push(hi);
    out.push(lo);
}

/// Appends [`be_words`] of [`rgba_words`] of `data` to `out`.
pub(crate) fn push_rgba_to_rgba16(data: &Vec<u8>, out: &mut Vec<u8>)
    ensures
        final(out)@ == old(out)@ + be_words(rgba_words(data@)),
{
    let len = data.len();
    let n = len / 4;
    let ghost start = out@;
    let ghost words = rgba_words(data@);
    let ghost want = be_words(words);
    let mut j: usize = 0;
    while j < n
        invariant
            0 <= j <= n,
            len == data@.len(),
            n == len / 4,
            words == rgba_words(data@),
            want == be_words(words),
            out@ == start + want.take(2 * j),
        decreases n - j,
    {
        assert(4 * j + 3 < data@.len());
        let color = Color::RGBA(data[4 * j], data[4 * j + 1], data[4 * j + 2], data[4 * j + 3]);
        let ghost before = out@;
        push_rgba16(color, out);
        proof {
            assert(words[j as int] == color.spec_to_u16());
            assert(want.take(2 * j + 2) =~= want.take(2 * j) + seq![
                (color.spec_to_u16() / 256) as u8,
                (color.spec_to_u16() % 256) as u8,
            ]);
        }
        j += 1;
    }
    assert(want.take(2 * n) =~= want);
}

/// Appends [`be_words`] of [`palette_words`] of `rgb` and `alpha` to `out`.
pub fn palette_to_rgba16(rgb: &[u8], alpha: Option<&[u8]>, out: &mut Vec<u8>)
    ensures
        final(out)@ == old(out)@ + be_words(
            palette_words(
                rgb@,
                match alpha {
                    Some(a) => Some(a@),
                    None => None,
                },
            ),
        ),
{
    let ghost alpha_view = match alpha {
        Some(a) => Some(a@),
        None => None,
    };
    let ghost start = out@;
    let ghost words = palette_words(rgb@, alpha_view);
    let ghost want = be_words(words);
    let len = rgb.len();
    let n = match alpha {
        Some(a) => if len / 3 <= a.len() { len / 3 } else { a.len() },
        None => len / 3,
    };
    assert(n == words.len());
    let mut j: usize = 0;
    while j < n
        invariant
            0 <= j <= n,
            len == rgb@.len(),
            n <= len / 3,
            n == words.len(),
            alpha matches Some(a) ==> n <= a@.len(),
            alpha_view == (match alpha {
                Some(a) => Some(a@),
                None => None,
            }),
            words == palette_words(rgb@, alpha_view),
            want == be_words(words),
            out@ == start + want.take(2 * j),
        decreases n - j,
    {
        assert(3 * j + 2 < rgb@.len());
        let color = match alpha {
            Some(a) => Color::RGBA(rgb[3 * j], rgb[3 * j + 1], rgb[3 * j + 2], a[j]),
            None => Color::RGB(rgb[3 * j], rgb[3 * j + 1], rgb[3 * j + 2]),
        };
        push_rgba16(color, out);
        proof {
            assert(words[j as int] == color.spec_to_u16());
            assert(want.take(2 * j + 2) =~= want.take(2 * j) + seq![
                (color.spec_to_u16() / 256) as u8,
                (color.spec_to_u16() % 256) as u8,
            ]);
        }
        j += 1;
    }
    assert(want.take(2 * n) =~= want);
}

/// Setting bit `t` of a byte sets that bit and leaves the others.
proof fn lemma_set_bit(m: u8, t: u8, q: u8)
    requires
        t < 8,
        q < 8,
    ensures
        ((m | (1u8 << t)) >> q) & 1u8 == (if q == t { 1u8 } else { (m >> q) & 1u8 }),
{
    assert(((m | (1u8 << t)) >> q) & 1u8 == (if q == t { 1u8 } else { (m >> q) & 1u8 }))
        by (bit_vector)
        requires
            t < 8,
            q < 8,
    ;
}

/// Bit `7 - k` of the first `n` bits of an I1 byte is set exactly where `k` is
/// below `n` and pixel `8j + k` has an intensity over half.
proof fn lemma_i1_bits(p: Seq<u8>, j: int, n: int, k: int)
    requires
        0 <= n <= 8,
        0 <= k < 8,
    ensures
        (i1_bits(p, j, n) >> ((7 - k) as u8)) & 1u8 == (if k < n && p[8 * j + k] > 127 {
            1u8
        } else {
            0u8
        }),
    decreases n,
{
    if n == 0 {
        let q = (7 - k) as u8;
        assert((0u8 >> q) & 1u8 == 0u8) by (bit_vector);
    } else {
        lemma_i1_bits(p, j, n - 1, k);
        if p[8 * j + n - 1] > 127 {
            lemma_set_bit(i1_bits(p, j, n - 1), (7 - (n - 1)) as u8, (7 - k) as u8);
        }
    }
}

/// Bit `7 - k` of each I1 byte is set exactly where pixel `k` of its eight has an
/// intensity over half.
pub proof fn lemma_i1_pack_bits(p: Seq<u8>, j: int, k: int)
    requires
        0 <= j < p.len() / 8,
        0 <= k < 8,
    ensures
        i1_pack(p).len() == p.len() / 8,
        (i1_pack(p)[j] >> ((7 - k) as u8)) & 1u8 == (if p[8 * j + k] > 127 {
            1u8
        } else {
            0u8
        }),
{
    lemma_i1_bits(p, j, 8, k);
}

} // verus!
