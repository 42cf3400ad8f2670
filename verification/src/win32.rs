//! Window-style bit arithmetic, colour packing and wide-string encoding used
//! when talking to the Win32 and GDI+ APIs.
use vstd::prelude::*;

verus! {

// Window and extended-window style bits, as the Win32 headers define them.
pub const WS_CAPTION: i32 = 0x00C0_0000;
pub const WS_SYSMENU: i32 = 0x0008_0000;
pub const WS_THICKFRAME: i32 = 0x0004_0000;
pub const WS_MINIMIZEBOX: i32 = 0x0002_0000;
pub const WS_MAXIMIZEBOX: i32 = 0x0001_0000;
pub const WS_CLIPSIBLINGS: i32 = 0x0400_0000;
pub const WS_EX_DLGMODALFRAME: i32 = 0x0000_0001;
pub const WS_EX_TOPMOST: i32 = 0x0000_0008;
pub const WS_EX_WINDOWEDGE: i32 = 0x0000_0100;
pub const WS_EX_CLIENTEDGE: i32 = 0x0000_0200;
pub const WS_EX_STATICEDGE: i32 = 0x0002_0000;
pub const WS_EX_LAYERED: u32 = 0x0008_0000;

/// Frame style of the picture-in-picture window: no caption, system menu or
/// minimise/maximise boxes, but a thick frame so that it can still be resized.
pub fn pip_frame_style(style: i32) -> (s: i32)
    ensures
        s == (style & !(0x00C0_0000i32 | 0x0008_0000i32 | 0x0002_0000i32 | 0x0001_0000i32))
            | 0x0004_0000i32,
{
    (style & !(WS_CAPTION | WS_SYSMENU | WS_MINIMIZEBOX | WS_MAXIMIZEBOX)) | WS_THICKFRAME
}

/// The extended style with the always-on-top bit set.
pub fn with_topmost(ex_style: i32) -> (s: i32)
    ensures
        s == ex_style | 0x0000_0008i32,
{
    ex_style | WS_EX_TOPMOST
}

/// The style with `WS_CLIPSIBLINGS` set (`on`) or cleared.
pub fn clip_siblings(style: i32, on: bool) -> (s: i32)
    ensures
        s == (if on {
            style | 0x0400_0000i32
        } else {
            style & !0x0400_0000i32
        }),
{
    if on {
        style | WS_CLIPSIBLINGS
    } else {
        style & !WS_CLIPSIBLINGS
    }
}

/// The picture-in-picture frame never has a caption, a system menu or
/// minimise/maximise boxes, and always has a resizable thick frame; every
/// other style bit is kept.
pub proof fn lemma_pip_frame_style_bits(style: i32)
    ensures
        ((style & !(0x00C0_0000i32 | 0x0008_0000i32 | 0x0002_0000i32 | 0x0001_0000i32))
            | 0x0004_0000i32) & 0x00C0_0000i32 == 0,
        ((style & !(0x00C0_0000i32 | 0x0008_0000i32 | 0x0002_0000i32 | 0x0001_0000i32))
            | 0x0004_0000i32) & 0x0008_0000i32 == 0,
        ((style & !(0x00C0_0000i32 | 0x0008_0000i32 | 0x0002_0000i32 | 0x0001_0000i32))
            | 0x0004_0000i32) & 0x0003_0000i32 == 0,
        ((style & !(0x00C0_0000i32 | 0x0008_0000i32 | 0x0002_0000i32 | 0x0001_0000i32))
            | 0x0004_0000i32) & 0x0004_0000i32 == 0x0004_0000i32,
        ((style & !(0x00C0_0000i32 | 0x0008_0000i32 | 0x0002_0000i32 | 0x0001_0000i32))
            | 0x0004_0000i32) & !0x00CF_0000i32 == style & !0x00CF_0000i32,
{
    assert(((style & !(0x00C0_0000i32 | 0x0008_0000i32 | 0x0002_0000i32 | 0x0001_0000i32))
        | 0x0004_0000i32) & 0x00C0_0000i32 == 0) by (bit_vector);
    assert(((style & !(0x00C0_0000i32 | 0x0008_0000i32 | 0x0002_0000i32 | 0x0001_0000i32))
        | 0x0004_0000i32) & 0x0008_0000i32 == 0) by (bit_vector);
    assert(((style & !(0x00C0_0000i32 | 0x0008_0000i32 | 0x0002_0000i32 | 0x0001_0000i32))
        | 0x0004_0000i32) & 0x0003_0000i32 == 0) by (bit_vector);
    assert(((style & !(0x00C0_0000i32 | 0x0008_0000i32 | 0x0002_0000i32 | 0x0001_0000i32))
        | 0x0004_0000i32) & 0x0004_0000i32 == 0x0004_0000i32) by (bit_vector);
    assert(((style & !(0x00C0_0000i32 | 0x0008_0000i32 | 0x0002_0000i32 | 0x0001_0000i32))
        | 0x0004_0000i32) & !0x00CF_0000i32 == style & !0x00CF_0000i32) by (bit_vector);
}

/// Attaching the video sets `WS_CLIPSIBLINGS`, detaching clears it again, and
/// neither touches any other style bit: attach then detach leaves the style
/// as it was apart from that bit.
pub proof fn lemma_clip_siblings_round_trip(style: i32)
    ensures
        (style | 0x0400_0000i32) & 0x0400_0000i32 != 0,
        (style & !0x0400_0000i32) & 0x0400_0000i32 == 0,
        ((style | 0x0400_0000i32) & !0x0400_0000i32) == style & !0x0400_0000i32,
{
    assert((style | 0x0400_0000i32) & 0x0400_0000i32 != 0) by (bit_vector);
    assert((style & !0x0400_0000i32) & 0x0400_0000i32 == 0) by (bit_vector);
    assert(((style | 0x0400_0000i32) & !0x0400_0000i32) == style & !0x0400_0000i32)
        by (bit_vector);
}

/// A colour with 8-bit alpha, red, green and blue channels, packed as GDI+
/// expects: alpha in the top byte, then red, green and blue.
pub open spec fn spec_argb(a: u8, r: u8, g: u8, b: u8) -> u32 {
    (a * 0x100_0000 + r * 0x1_0000 + g * 0x100 + b) as u32
}

/// Packs alpha, red, green and blue into a GDI+ colour value.
pub fn argb(a: u8, r: u8, g: u8, b: u8) -> (c: u32)
    ensures
        c == spec_argb(a, r, g, b),
        c as int == a * 0x100_0000 + r * 0x1_0000 + g * 0x100 + b,
{
    let c = ((a as u32) << 24) | ((r as u32) << 16) | ((g as u32) << 8) | (b as u32);
    assert(((a as u32) << 24) | ((r as u32) << 16) | ((g as u32) << 8) | (b as u32) == a
        * 0x100_0000 + r * 0x1_0000 + g * 0x100 + b) by (bit_vector);
    c
}

/// Each channel of a packed colour can be read back from its byte.
pub proof fn lemma_argb_channels(a: u8, r: u8, g: u8, b: u8)
    ensures
        spec_argb(a, r, g, b) >> 24 == a as u32,
        (spec_argb(a, r, g, b) >> 16) & 0xFF == r as u32,
        (spec_argb(a, r, g, b) >> 8) & 0xFF == g as u32,
        spec_argb(a, r, g, b) & 0xFF == b as u32,
{
    let c = spec_argb(a, r, g, b);
    assert(c == ((a as u32) << 24) | ((r as u32) << 16) | ((g as u32) << 8) | (b as u32)) by {
        assert(((a as u32) << 24) | ((r as u32) << 16) | ((g as u32) << 8) | (b as u32) == a
            * 0x100_0000 + r * 0x1_0000 + g * 0x100 + b) by (bit_vector);
    }
    assert((((a as u32) << 24) | ((r as u32) << 16) | ((g as u32) << 8) | (b as u32)) >> 24
        == a as u32) by (bit_vector);
    assert(((((a as u32) << 24) | ((r as u32) << 16) | ((g as u32) << 8) | (b as u32)) >> 16)
        & 0xFF == r as u32) by (bit_vector);
    assert(((((a as u32) << 24) | ((r as u32) << 16) | ((g as u32) << 8) | (b as u32)) >> 8)
        & 0xFF == g as u32) by (bit_vector);
    assert((((a as u32) << 24) | ((r as u32) << 16) | ((g as u32) << 8) | (b as u32)) & 0xFF
        == b as u32) by (bit_vector);
}

/// UTF-16 code units of one character: itself below U+10000, otherwise a
/// surrogate pair.
pub open spec fn utf16_of_char(c: char) -> Seq<u16> {
    let v = c as int;
    if v < 0x1_0000 {
        seq![v as u16]
    } else {
        seq![
            (0xD800 + (v - 0x1_0000) / 0x400) as u16,
            (0xDC00 + (v - 0x1_0000) % 0x400) as u16,
        ]
    }
}

/// UTF-16 encoding of a character sequence.
pub open spec fn utf16_of(s: Seq<char>) -> Seq<u16>
    decreases s.len(),
{
    if s.len() == 0 {
        seq![]
    } else {
        utf16_of(s.drop_last()) + utf16_of_char(s.last())
    }
}

/// UTF-16 code units of `c`, appended to `out`.
fn push_utf16(out: &mut Vec<u16>, c: char)
    ensures
        final(out)@ == old(out)@ + utf16_of_char(c),
{
    let v = c as u32;
    if v < 0x1_0000 {
        out.push(v as u16);
    } else {
        assert(v <= 0x10FFFF);
        let high = 0xD800 + (v - 0x1_0000) / 0x400;
        let low = 0xDC00 + (v - 0x1_0000) % 0x400;
        out.push(high as u16);
        out.push(low as u16);
    }
}

/// The string as a NUL-terminated UTF-16 buffer, as wide Win32 and GDI+ calls take it.
pub fn wide_zero_terminated(s: &str) -> (w: Vec<u16>)
    ensures
        w@ == utf16_of(s@).push(0u16),
{
    let n = s.unicode_len();
    let mut out: Vec<u16> = Vec::new();
    let mut i: usize = 0;
    while i < n
        invariant
            n == s@.len(),
            i <= n,
            out@ == utf16_of(s@.subrange(0, i as int)),
        decreases n - i,
    {
        let c = s.get_char(i);
        push_utf16(&mut out, c);
        proof {
            let prefix = s@.subrange(0, i as int + 1);
            assert(prefix.drop_last() =~= s@.subrange(0, i as int));
            assert(prefix.last() == c);
        }
        i = i + 1;
    }
    assert(s@.subrange(0, n as int) =~= s@);
    out.push(0u16);
    out
}

/// The encoded buffer ends with the terminating NUL and holds at least one
/// code unit per character before it.
pub proof fn lemma_utf16_length(s: Seq<char>)
    ensures
        s.len() <= utf16_of(s).len() <= 2 * s.len(),
        utf16_of(s).push(0u16).last() == 0u16,
    decreases s.len(),
{
    if s.len() > 0 {
        lemma_utf16_length(s.drop_last());
    }
}

} // verus!
