//! Integer rectangles in window coordinates and the message-parameter
//! packing that Win32 uses for points and sizes.
use vstd::prelude::*;

verus! {

/// A rectangle with an inclusive left/top edge and an exclusive right/bottom edge.
#[derive(Clone, Copy, Debug, PartialEq, Eq, Structural)]
pub struct Rect {
    pub left: i32,
    pub top: i32,
    pub right: i32,
    pub bottom: i32,
}

/// Whether the point lies inside the rectangle (right and bottom edges excluded).
pub open spec fn spec_rect_contains(r: Rect, x: int, y: int) -> bool {
    r.left <= x < r.right && r.top <= y < r.bottom
}

/// Whether every coordinate of `r` grown by `by` on each side fits in an `i32`.
pub open spec fn inflate_fits(r: Rect, by: int) -> bool {
    &&& i32::MIN <= r.left - by
    &&& i32::MIN <= r.top - by
    &&& r.right + by <= i32::MAX
    &&& r.bottom + by <= i32::MAX
    &&& i32::MIN <= r.right + by
    &&& i32::MIN <= r.bottom + by
    &&& r.left - by <= i32::MAX
    &&& r.top - by <= i32::MAX
}

/// Whether the width and the height of `r` fit in an `i32`.
pub open spec fn extent_fits(r: Rect) -> bool {
    &&& i32::MIN <= r.right - r.left <= i32::MAX
    &&& i32::MIN <= r.bottom - r.top <= i32::MAX
}

impl Rect {
    pub open spec fn spec_width(self) -> int {
        self.right - self.left
    }

    pub open spec fn spec_height(self) -> int {
        self.bottom - self.top
    }

    /// Width of the rectangle.
    pub fn width(&self) -> (w: i32)
        requires
            extent_fits(*self),
        ensures
            w == self.spec_width(),
    {
        self.right - self.left
    }

    /// Height of the rectangle.
    pub fn height(&self) -> (h: i32)
        requires
            extent_fits(*self),
        ensures
            h == self.spec_height(),
    {
        self.bottom - self.top
    }
}

/// Point-in-rectangle test with an exclusive right and bottom edge.
pub fn rect_contains(r: &Rect, x: i32, y: i32) -> (b: bool)
    ensures
        b == spec_rect_contains(*r, x as int, y as int),
{
    x >= r.left && x < r.right && y >= r.top && y < r.bottom
}

/// The rectangle grown by `by` pixels on every side.
pub fn inflate(r: &Rect, by: i32) -> (g: Rect)
    requires
        inflate_fits(*r, by as int),
    ensures
        g.left == r.left - by,
        g.top == r.top - by,
        g.right == r.right + by,
        g.bottom == r.bottom + by,
{
    Rect { left: r.left - by, top: r.top - by, right: r.right + by, bottom: r.bottom + by }
}

/// `(left, top, width, height)` of a window rectangle.
pub fn placement_of(r: &Rect) -> (p: (i32, i32, i32, i32))
    requires
        extent_fits(*r),
    ensures
        p == (r.left, r.top, r.spec_width() as i32, r.spec_height() as i32),
{
    (r.left, r.top, r.width(), r.height())
}

/// Division rounding toward zero, as Rust's `/` on signed integers does.
pub open spec fn trunc_div(a: int, b: int) -> int {
    if a >= 0 {
        a / b
    } else {
        -((-a) / b)
    }
}

/// The low 16 bits of `v`, read as a two's-complement `i16`.
pub open spec fn signed_word(v: int) -> int {
    let w = v % 0x10000;
    if w >= 0x8000 {
        w - 0x10000
    } else {
        w
    }
}

/// The low 16 bits of `v`, read as an unsigned number.
pub open spec fn unsigned_word(v: int) -> int {
    v % 0x10000
}

/// The signed client coordinates packed into a mouse-message `LPARAM`
/// (x in the low word, y in the high word).
pub fn point_from_lparam(lparam: isize) -> (p: (i32, i32))
    ensures
        p.0 == signed_word(lparam as int),
        p.1 == signed_word(lparam as int / 0x10000),
{
    let x = ((lparam & 0xFFFF) as i16) as i32;
    let y = (((lparam >> 16) & 0xFFFF) as i16) as i32;
    proof {
        lemma_signed_low_word(lparam);
        lemma_signed_high_word(lparam);
    }
    (x, y)
}

/// The unsigned width and height packed into a `WM_SIZE` `LPARAM`.
pub fn size_from_lparam(lparam: isize) -> (s: (i32, i32))
    ensures
        s.0 == unsigned_word(lparam as int),
        s.1 == unsigned_word(lparam as int / 0x10000),
{
    let w = (lparam & 0xFFFF) as i32;
    let h = ((lparam >> 16) & 0xFFFF) as i32;
    proof {
        lemma_unsigned_words(lparam);
    }
    (w, h)
}

/// Packs a point into an `LPARAM` word pair the way `MAKELPARAM` does:
/// the low 16 bits of `x`, then the low 16 bits of `y` above them.
pub fn lparam_from_point(x: i32, y: i32) -> (l: i32)
    ensures
        unsigned_word(l as int) == unsigned_word(x as int),
        unsigned_word(l as int / 0x10000) == unsigned_word(y as int),
{
    let l = (x & 0xFFFF) | ((y & 0xFFFF) << 16);
    proof {
        lemma_pack_words(x, y);
    }
    l
}

/// A point packed into an `LPARAM` and unpacked again comes back unchanged when
/// both coordinates fit in 16 signed bits, as screen coordinates do.
pub proof fn lemma_lparam_point_round_trip(x: i32, y: i32, packed: i32)
    requires
        -0x8000 <= x < 0x8000,
        -0x8000 <= y < 0x8000,
        unsigned_word(packed as int) == unsigned_word(x as int),
        unsigned_word(packed as int / 0x10000) == unsigned_word(y as int),
    ensures
        signed_word(packed as int) == x,
        signed_word(packed as int / 0x10000) == y,
{
}

proof fn lemma_signed_low_word(l: isize)
    ensures
        ((l & 0xFFFF) as i16) as i32 == signed_word(l as int),
{
    assert((((l & 0xFFFF) as i16) as i32) as int == (if (l & 0xFFFF) >= 0x8000 { (l & 0xFFFF) - 0x10000 } else { (l & 0xFFFF) as int })) by (bit_vector);
    assert(l & 0xFFFF == (l as int) % 0x10000) by (bit_vector);
}

proof fn lemma_signed_high_word(l: isize)
    ensures
        (((l >> 16) & 0xFFFF) as i16) as i32 == signed_word(l as int / 0x10000),
{
    assert(((((l >> 16) & 0xFFFF) as i16) as i32) as int == (if ((l >> 16) & 0xFFFF) >= 0x8000 { ((l >> 16) & 0xFFFF) - 0x10000 } else { ((l >> 16) & 0xFFFF) as int })) by (bit_vector);
    assert((l >> 16) & 0xFFFF == ((l as int) / 0x10000) % 0x10000) by (bit_vector);
}

proof fn lemma_unsigned_words(l: isize)
    ensures
        ((l & 0xFFFF) as i32) as int == unsigned_word(l as int),
        (((l >> 16) & 0xFFFF) as i32) as int == unsigned_word(l as int / 0x10000),
{
    assert(l & 0xFFFF == (l as int) % 0x10000) by (bit_vector);
    assert((l >> 16) & 0xFFFF == ((l as int) / 0x10000) % 0x10000) by (bit_vector);
}

proof fn lemma_pack_words(x: i32, y: i32)
    ensures
        unsigned_word(((x & 0xFFFF) | ((y & 0xFFFF) << 16)) as int) == unsigned_word(x as int),
        unsigned_word(((x & 0xFFFF) | ((y & 0xFFFF) << 16)) as int / 0x10000) == unsigned_word(y as int),
{
    let l = (x & 0xFFFF) | ((y & 0xFFFF) << 16);
    assert(((x & 0xFFFF) | ((y & 0xFFFF) << 16)) as int % 0x10000 == (x as int) % 0x10000) by (bit_vector);
    assert((((x & 0xFFFF) | ((y & 0xFFFF) << 16)) as int / 0x10000) % 0x10000 == (y as int) % 0x10000) by (bit_vector);
}

} // verus!
