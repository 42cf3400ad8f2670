//! Geometry of the picture-in-picture window: where the overlay's pills sit,
//! which control a click lands on, and which resize edge the cursor is over.
use vstd::prelude::*;
use crate::geometry::{
    Rect, extent_fits, point_from_lparam, rect_contains, signed_word, spec_rect_contains, trunc_div,
};

verus! {

/// Default size of the picture-in-picture window.
pub const PIP_DEFAULT_WIDTH: i32 = 520;
pub const PIP_DEFAULT_HEIGHT: i32 = 320;
/// Below this size the whole window drags instead of resizing.
pub const PIP_MIN_WIDTH: i32 = 280;
pub const PIP_MIN_HEIGHT: i32 = 160;
/// Width of the invisible resize band along each window edge.
pub const RESIZE_BORDER: i32 = 8;

pub const BTN_SIZE: i32 = 40;
pub const BTN_MARGIN: i32 = 12;
pub const BTN_RADIUS: i32 = 12;
pub const SLIDER_H: i32 = 6;
pub const SLIDER_THUMB_R: i32 = 7;
pub const SLIDER_HIT_PAD: i32 = 10;
pub const DRAG_HANDLE_W: i32 = 96;
pub const DRAG_HANDLE_H: i32 = 10;
/// Horizontal gap between neighbouring pills.
pub const PILL_GAP: i32 = 8;
/// Distance from the top of the bottom button row up to the slider track.
pub const SLIDER_LIFT: i32 = 18;

/// The overlay control under a point.
#[derive(Clone, Copy, Debug, PartialEq, Eq, Structural)]
pub enum HitId {
    Empty,
    Restore,
    Close,
    PlayPause,
    Skip,
    Transparency,
    Slider,
}

/// Rectangles of every overlay control, in overlay client coordinates.
#[derive(Clone, Copy, Debug, PartialEq, Eq, Structural)]
pub struct Layout {
    pub restore: Rect,
    pub close: Rect,
    pub play_pause: Rect,
    pub skip: Rect,
    pub transparency: Rect,
    pub slider_track: Rect,
    pub drag_handle: Rect,
}

/// Client sizes for which every layout coordinate fits in an `i32`.
pub open spec fn layout_size_fits(width: int, height: int) -> bool {
    width >= i32::MIN + DRAG_HANDLE_W && height >= i32::MIN + BTN_MARGIN + BTN_SIZE + SLIDER_LIFT
}

/// Client sizes for which the layout and the slider's padded hit area both fit
/// in an `i32`.
pub open spec fn padded_layout_size_fits(width: int, height: int) -> bool {
    layout_size_fits(width, height) && height >= i32::MIN + BTN_MARGIN + BTN_SIZE + SLIDER_LIFT
        + SLIDER_HIT_PAD
}

pub open spec fn rect_of(left: int, top: int, right: int, bottom: int) -> Rect {
    Rect { left: left as i32, top: top as i32, right: right as i32, bottom: bottom as i32 }
}

/// The overlay layout for a client area of `width` x `height`: the restore and
/// close buttons in the top corners, play/pause, skip and transparency along the
/// bottom, the seek slider above them, and a drag grip centred between the top
/// buttons, clamped so it keeps a gap to both of them.
pub open spec fn spec_layout(width: int, height: int) -> Layout {
    let top_y = BTN_MARGIN as int;
    let bottom_y = height - BTN_MARGIN - BTN_SIZE;
    let slider_y = bottom_y - SLIDER_LIFT;
    let drag_x = trunc_div(width - DRAG_HANDLE_W, 2);
    let drag_y = BTN_MARGIN + trunc_div(BTN_SIZE - DRAG_HANDLE_H, 2);
    let restore_right = BTN_MARGIN + BTN_SIZE;
    let close_left = width - BTN_MARGIN - BTN_SIZE;
    Layout {
        restore: rect_of(BTN_MARGIN as int, top_y, restore_right, top_y + BTN_SIZE),
        close: rect_of(close_left, top_y, width - BTN_MARGIN, top_y + BTN_SIZE),
        play_pause: rect_of(BTN_MARGIN as int, bottom_y, BTN_MARGIN + BTN_SIZE, bottom_y + BTN_SIZE),
        skip: rect_of(
            BTN_MARGIN + BTN_SIZE + PILL_GAP,
            bottom_y,
            BTN_MARGIN + 2 * BTN_SIZE + PILL_GAP,
            bottom_y + BTN_SIZE,
        ),
        transparency: rect_of(close_left, bottom_y, width - BTN_MARGIN, bottom_y + BTN_SIZE),
        slider_track: rect_of(BTN_MARGIN as int, slider_y, width - BTN_MARGIN, slider_y + SLIDER_H),
        drag_handle: rect_of(
            if drag_x >= restore_right + PILL_GAP { drag_x } else { restore_right + PILL_GAP },
            drag_y,
            if drag_x + DRAG_HANDLE_W <= close_left - PILL_GAP {
                drag_x + DRAG_HANDLE_W
            } else {
                close_left - PILL_GAP
            },
            drag_y + DRAG_HANDLE_H,
        ),
    }
}

/// Lays out the overlay controls for a client area of the given size.
pub fn layout_from_size(width: i32, height: i32) -> (l: Layout)
    requires
        layout_size_fits(width as int, height as int),
    ensures
        l == spec_layout(width as int, height as int),
        // Restore: top-left corner.
        l.restore.left == BTN_MARGIN && l.restore.top == BTN_MARGIN,
        l.restore.right == BTN_MARGIN + BTN_SIZE && l.restore.bottom == BTN_MARGIN + BTN_SIZE,
        // Close: top-right corner, `BTN_MARGIN` from the right edge.
        l.close.right == width - BTN_MARGIN && l.close.left == width - BTN_MARGIN - BTN_SIZE,
        l.close.top == BTN_MARGIN && l.close.bottom == BTN_MARGIN + BTN_SIZE,
        // Play/pause: bottom-left corner, `BTN_MARGIN` from the bottom edge.
        l.play_pause.left == BTN_MARGIN && l.play_pause.right == BTN_MARGIN + BTN_SIZE,
        l.play_pause.bottom == height - BTN_MARGIN && l.play_pause.top == height - BTN_MARGIN
            - BTN_SIZE,
        // Skip: right of play/pause, a gap of `PILL_GAP` between them, same row.
        l.skip.left == l.play_pause.right + PILL_GAP && l.skip.right == l.skip.left + BTN_SIZE,
        l.skip.top == l.play_pause.top && l.skip.bottom == l.play_pause.bottom,
        // Transparency: bottom-right corner, under the close button.
        l.transparency.left == l.close.left && l.transparency.right == l.close.right,
        l.transparency.right == width - BTN_MARGIN,
        l.transparency.top == l.play_pause.top && l.transparency.bottom == l.play_pause.bottom,
        // Slider: spans from the left margin to the right margin, `SLIDER_LIFT`
        // above the bottom row, `SLIDER_H` high.
        l.slider_track.left == BTN_MARGIN && l.slider_track.right == width - BTN_MARGIN,
        l.slider_track.top == l.play_pause.top - SLIDER_LIFT,
        l.slider_track.bottom == l.slider_track.top + SLIDER_H,
        // Drag grip: `DRAG_HANDLE_W` wide and centred when there is room, never
        // closer than `PILL_GAP` to restore or close; vertically centred in the top row.
        l.drag_handle.left == (if trunc_div(width - DRAG_HANDLE_W, 2) >= l.restore.right + PILL_GAP {
            trunc_div(width - DRAG_HANDLE_W, 2)
        } else {
            l.restore.right + PILL_GAP
        }),
        l.drag_handle.right == (if trunc_div(width - DRAG_HANDLE_W, 2) + DRAG_HANDLE_W <= l.close.left
            - PILL_GAP {
            trunc_div(width - DRAG_HANDLE_W, 2) + DRAG_HANDLE_W
        } else {
            l.close.left - PILL_GAP
        }),
        l.drag_handle.top == BTN_MARGIN + (BTN_SIZE - DRAG_HANDLE_H) / 2,
        l.drag_handle.bottom == l.drag_handle.top + DRAG_HANDLE_H,
{
    let top_y = BTN_MARGIN;
    let bottom_y = height - BTN_MARGIN - BTN_SIZE;

    let restore = Rect {
        left: BTN_MARGIN,
        top: top_y,
        right: BTN_MARGIN + BTN_SIZE,
        bottom: top_y + BTN_SIZE,
    };
    let close = Rect {
        left: width - BTN_MARGIN - BTN_SIZE,
        top: top_y,
        right: width - BTN_MARGIN,
        bottom: top_y + BTN_SIZE,
    };
    let play_pause = Rect {
        left: BTN_MARGIN,
        top: bottom_y,
        right: BTN_MARGIN + BTN_SIZE,
        bottom: bottom_y + BTN_SIZE,
    };
    let skip = Rect {
        left: BTN_MARGIN + BTN_SIZE + PILL_GAP,
        top: bottom_y,
        right: BTN_MARGIN + 2 * BTN_SIZE + PILL_GAP,
        bottom: bottom_y + BTN_SIZE,
    };
    let transparency = Rect {
        left: width - BTN_MARGIN - BTN_SIZE,
        top: bottom_y,
        right: width - BTN_MARGIN,
        bottom: bottom_y + BTN_SIZE,
    };
    let slider_y = bottom_y - SLIDER_LIFT;
    let slider_track = Rect {
        left: BTN_MARGIN,
        top: slider_y,
        right: width - BTN_MARGIN,
        bottom: slider_y + SLIDER_H,
    };
    let drag_x = (width - DRAG_HANDLE_W) / 2;
    let drag_y = BTN_MARGIN + (BTN_SIZE - DRAG_HANDLE_H) / 2;
    let min_left = restore.right + PILL_GAP;
    let max_right = close.left - PILL_GAP;
    let drag_right = drag_x + DRAG_HANDLE_W;
    let drag_handle = Rect {
        left: if drag_x >= min_left { drag_x } else { min_left },
        top: drag_y,
        right: if drag_right <= max_right { drag_right } else { max_right },
        bottom: drag_y + DRAG_HANDLE_H,
    };
    Layout { restore, close, play_pause, skip, transparency, slider_track, drag_handle }
}

/// The slider's clickable area: the track extended by `SLIDER_HIT_PAD` above and below.
pub fn slider_hit_rect(track: &Rect) -> (r: Rect)
    requires
        track.top >= i32::MIN + SLIDER_HIT_PAD,
        track.bottom <= i32::MAX - SLIDER_HIT_PAD,
    ensures
        r == rect_of(
            track.left as int,
            track.top - SLIDER_HIT_PAD,
            track.right as int,
            track.bottom + SLIDER_HIT_PAD,
        ),
{
    Rect {
        left: track.left,
        top: track.top - SLIDER_HIT_PAD,
        right: track.right,
        bottom: track.bottom + SLIDER_HIT_PAD,
    }
}

/// The slider track of a layout leaves room for its padded hit area.
pub open spec fn slider_pad_fits(l: Layout) -> bool {
    l.slider_track.top >= i32::MIN + SLIDER_HIT_PAD && l.slider_track.bottom <= i32::MAX
        - SLIDER_HIT_PAD
}

/// The control under a point, checking the buttons in a fixed order and the
/// padded slider last.
pub open spec fn spec_hit(l: Layout, x: int, y: int) -> HitId {
    if spec_rect_contains(l.restore, x, y) {
        HitId::Restore
    } else if spec_rect_contains(l.close, x, y) {
        HitId::Close
    } else if spec_rect_contains(l.play_pause, x, y) {
        HitId::PlayPause
    } else if spec_rect_contains(l.skip, x, y) {
        HitId::Skip
    } else if spec_rect_contains(l.transparency, x, y) {
        HitId::Transparency
    } else if l.slider_track.left <= x < l.slider_track.right && l.slider_track.top
        - SLIDER_HIT_PAD <= y < l.slider_track.bottom + SLIDER_HIT_PAD {
        HitId::Slider
    } else {
        HitId::Empty
    }
}

/// Which overlay control the point `(x, y)` hits.
pub fn hit_test_buttons(l: &Layout, x: i32, y: i32) -> (h: HitId)
    requires
        slider_pad_fits(*l),
    ensures
        h == spec_hit(*l, x as int, y as int),
{
    if rect_contains(&l.restore, x, y) {
        return HitId::Restore;
    }
    if rect_contains(&l.close, x, y) {
        return HitId::Close;
    }
    if rect_contains(&l.play_pause, x, y) {
        return HitId::PlayPause;
    }
    if rect_contains(&l.skip, x, y) {
        return HitId::Skip;
    }
    if rect_contains(&l.transparency, x, y) {
        return HitId::Transparency;
    }
    if rect_contains(&slider_hit_rect(&l.slider_track), x, y) {
        return HitId::Slider;
    }
    HitId::Empty
}

/// Edge or corner of the picture-in-picture window under the cursor; `Caption`
/// means the window is dragged rather than resized.
#[derive(Clone, Copy, Debug, PartialEq, Eq, Structural)]
pub enum HitZone {
    Caption,
    Left,
    Right,
    Top,
    Bottom,
    TopLeft,
    TopRight,
    BottomLeft,
    BottomRight,
}

/// Corners win over edges; the left and top sides win over the right and bottom.
pub open spec fn spec_zone(on_left: bool, on_right: bool, on_top: bool, on_bottom: bool) -> HitZone {
    if on_left && on_top {
        HitZone::TopLeft
    } else if on_right && on_top {
        HitZone::TopRight
    } else if on_left && on_bottom {
        HitZone::BottomLeft
    } else if on_right && on_bottom {
        HitZone::BottomRight
    } else if on_left {
        HitZone::Left
    } else if on_right {
        HitZone::Right
    } else if on_top {
        HitZone::Top
    } else if on_bottom {
        HitZone::Bottom
    } else {
        HitZone::Caption
    }
}

/// The zone for a cursor at screen point `(x, y)` over the window rectangle `r`:
/// windows smaller than the minimum size only drag; otherwise the cursor resizes
/// when it is within `RESIZE_BORDER` of an edge.
pub open spec fn spec_resize_zone(r: Rect, x: int, y: int) -> HitZone {
    if r.spec_width() < PIP_MIN_WIDTH || r.spec_height() < PIP_MIN_HEIGHT {
        HitZone::Caption
    } else {
        spec_zone(
            x - r.left < RESIZE_BORDER,
            r.right - x < RESIZE_BORDER,
            y - r.top < RESIZE_BORDER,
            r.bottom - y < RESIZE_BORDER,
        )
    }
}

pub open spec fn fits_i32(v: int) -> bool {
    i32::MIN <= v <= i32::MAX
}

/// Every difference that the resize hit test computes fits in an `i32`.
pub open spec fn hit_test_fits(r: Rect, x: int, y: int) -> bool {
    &&& extent_fits(r)
    &&& (r.spec_width() >= PIP_MIN_WIDTH && r.spec_height() >= PIP_MIN_HEIGHT) ==> {
        &&& fits_i32(x - r.left)
        &&& fits_i32(r.right - x)
        &&& fits_i32(y - r.top)
        &&& fits_i32(r.bottom - y)
    }
}

/// Non-client hit test of the borderless picture-in-picture window.
/// `window_rect` is `None` when the window rectangle could not be read, and the
/// cursor's screen position is packed in `lparam`.
pub fn hit_test(window_rect: Option<Rect>, lparam: isize) -> (z: HitZone)
    requires
        window_rect matches Some(r) ==> hit_test_fits(
            r,
            signed_word(lparam as int),
            signed_word(lparam as int / 0x10000),
        ),
    ensures
        z == match window_rect {
            None => HitZone::Caption,
            Some(r) => spec_resize_zone(
                r,
                signed_word(lparam as int),
                signed_word(lparam as int / 0x10000),
            ),
        },
        window_rect is None ==> z == HitZone::Caption,
        window_rect matches Some(r) ==> ({
            let x = signed_word(lparam as int);
            let y = signed_word(lparam as int / 0x10000);
            let left = x - r.left < RESIZE_BORDER;
            let right = r.right - x < RESIZE_BORDER;
            let top = y - r.top < RESIZE_BORDER;
            let bottom = r.bottom - y < RESIZE_BORDER;
            if r.right - r.left < PIP_MIN_WIDTH || r.bottom - r.top < PIP_MIN_HEIGHT {
                z == HitZone::Caption
            } else {
                &&& (z == HitZone::TopLeft) == (left && top)
                &&& (z == HitZone::TopRight) == (right && top && !left)
                &&& (z == HitZone::BottomLeft) == (left && bottom && !top)
                &&& (z == HitZone::BottomRight) == (right && bottom && !left && !top)
                &&& (z == HitZone::Left) == (left && !top && !bottom)
                &&& (z == HitZone::Right) == (right && !left && !top && !bottom)
                &&& (z == HitZone::Top) == (top && !left && !right)
                &&& (z == HitZone::Bottom) == (bottom && !left && !right && !top)
                &&& (z == HitZone::Caption) == (!left && !right && !top && !bottom)
            }
        }),
{
    let rect = match window_rect {
        None => {
            return HitZone::Caption;
        },
        Some(r) => r,
    };
    let (cx, cy) = point_from_lparam(lparam);
    let width = rect.width();
    let height = rect.height();
    if width < PIP_MIN_WIDTH || height < PIP_MIN_HEIGHT {
        return HitZone::Caption;
    }
    let on_left = cx - rect.left < RESIZE_BORDER;
    let on_right = rect.right - cx < RESIZE_BORDER;
    let on_top = cy - rect.top < RESIZE_BORDER;
    let on_bottom = rect.bottom - cy < RESIZE_BORDER;
    if on_left && on_top {
        HitZone::TopLeft
    } else if on_right && on_top {
        HitZone::TopRight
    } else if on_left && on_bottom {
        HitZone::BottomLeft
    } else if on_right && on_bottom {
        HitZone::BottomRight
    } else if on_left {
        HitZone::Left
    } else if on_right {
        HitZone::Right
    } else if on_top {
        HitZone::Top
    } else if on_bottom {
        HitZone::Bottom
    } else {
        HitZone::Caption
    }
}

/// Arguments of a rounded-rectangle region: the corner coordinates (right and
/// bottom exclusive, as the region API wants them) and the corner diameter.
#[derive(Clone, Copy, Debug, PartialEq, Eq, Structural)]
pub struct RoundRegion {
    pub left: i32,
    pub top: i32,
    pub right: i32,
    pub bottom: i32,
    pub diameter: i32,
}

/// The region covering `r` with corners of the given radius; the diameter is
/// at least 2.
pub open spec fn spec_round_region(r: Rect, radius: int) -> RoundRegion {
    RoundRegion {
        left: r.left,
        top: r.top,
        right: (r.right + 1) as i32,
        bottom: (r.bottom + 1) as i32,
        diameter: (if radius * 2 >= 2 { radius * 2 } else { 2 }) as i32,
    }
}

/// Region arguments for a pill over `r`.
pub fn rounded_pill_rect(r: &Rect, radius: i32) -> (g: RoundRegion)
    requires
        r.right < i32::MAX,
        r.bottom < i32::MAX,
        i32::MIN <= radius * 2 <= i32::MAX,
    ensures
        g == spec_round_region(*r, radius as int),
{
    let doubled = radius * 2;
    let d = if doubled >= 2 { doubled } else { 2 };
    RoundRegion { left: r.left, top: r.top, right: r.right + 1, bottom: r.bottom + 1, diameter: d }
}

/// The pills that make up the overlay's window region for a client area of
/// the given size, in drawing order: restore, close, play/pause, skip,
/// transparency, the padded slider and the drag grip.
pub open spec fn spec_pill_regions(width: int, height: int) -> Seq<RoundRegion> {
    let l = spec_layout(width, height);
    let t = l.slider_track;
    seq![
        spec_round_region(l.restore, BTN_RADIUS as int),
        spec_round_region(l.close, BTN_RADIUS as int),
        spec_round_region(l.play_pause, BTN_RADIUS as int),
        spec_round_region(l.skip, BTN_RADIUS as int),
        spec_round_region(l.transparency, BTN_RADIUS as int),
        spec_round_region(
            rect_of(t.left as int, t.top - SLIDER_HIT_PAD, t.right as int, t.bottom + SLIDER_HIT_PAD),
            SLIDER_H + SLIDER_HIT_PAD,
        ),
        spec_round_region(l.drag_handle, trunc_div(DRAG_HANDLE_H as int, 2)),
    ]
}

/// The region `g` spans exactly the rectangle `r`, its exclusive right and
/// bottom edges one pixel beyond `r`'s.
pub open spec fn pill_covers(g: RoundRegion, r: Rect) -> bool {
    g.left == r.left && g.top == r.top && g.right == r.right + 1 && g.bottom == r.bottom + 1
}

/// Region pieces of the overlay for a client area of the given size.
pub fn pill_regions(width: i32, height: i32) -> (v: Vec<RoundRegion>)
    requires
        padded_layout_size_fits(width as int, height as int),
    ensures
        v@ == spec_pill_regions(width as int, height as int),
        v@.len() == 7,
        // Each pill's box is the matching control of the `width` x `height`
        // layout, its right and bottom edges one pixel further out.
        pill_covers(v@[0], spec_layout(width as int, height as int).restore),
        pill_covers(v@[1], spec_layout(width as int, height as int).close),
        pill_covers(v@[2], spec_layout(width as int, height as int).play_pause),
        pill_covers(v@[3], spec_layout(width as int, height as int).skip),
        pill_covers(v@[4], spec_layout(width as int, height as int).transparency),
        pill_covers(
            v@[5],
            rect_of(
                BTN_MARGIN as int,
                height - BTN_MARGIN - BTN_SIZE - SLIDER_LIFT - SLIDER_HIT_PAD,
                width - BTN_MARGIN,
                height - BTN_MARGIN - BTN_SIZE - SLIDER_LIFT + SLIDER_H + SLIDER_HIT_PAD,
            ),
        ),
        pill_covers(v@[6], spec_layout(width as int, height as int).drag_handle),
        // The right-hand pills follow the width.
        v@[1].left == width - BTN_MARGIN - BTN_SIZE && v@[1].right == width - BTN_MARGIN + 1,
        v@[4].left == width - BTN_MARGIN - BTN_SIZE && v@[4].right == width - BTN_MARGIN + 1,
        v@[5].right == width - BTN_MARGIN + 1,
        v@[0].diameter == 2 * BTN_RADIUS && v@[1].diameter == 2 * BTN_RADIUS,
        v@[2].diameter == 2 * BTN_RADIUS && v@[3].diameter == 2 * BTN_RADIUS,
        v@[4].diameter == 2 * BTN_RADIUS,
        v@[5].diameter == 2 * (SLIDER_H + SLIDER_HIT_PAD),
        v@[6].diameter == DRAG_HANDLE_H,
{
    proof {
        lemma_layout_edges(width, height);
    }
    let l = layout_from_size(width, height);
    let mut v: Vec<RoundRegion> = Vec::new();
    v.push(rounded_pill_rect(&l.restore, BTN_RADIUS));
    v.push(rounded_pill_rect(&l.close, BTN_RADIUS));
    v.push(rounded_pill_rect(&l.play_pause, BTN_RADIUS));
    v.push(rounded_pill_rect(&l.skip, BTN_RADIUS));
    v.push(rounded_pill_rect(&l.transparency, BTN_RADIUS));
    v.push(rounded_pill_rect(&slider_hit_rect(&l.slider_track), SLIDER_H + SLIDER_HIT_PAD));
    v.push(rounded_pill_rect(&l.drag_handle, DRAG_HANDLE_H / 2));
    assert(v@ =~= spec_pill_regions(width as int, height as int));
    v
}

/// Where a click at `x` falls along the slider track: `offset` pixels from its
/// left end, out of `span` (the track width, at least 1).
#[derive(Clone, Copy, Debug, PartialEq, Eq, Structural)]
pub struct SliderPosition {
    pub offset: i32,
    pub span: i32,
}

/// Clamps a slider click to the track.
pub fn slider_position(track: &Rect, x: i32) -> (p: SliderPosition)
    requires
        extent_fits(*track),
        fits_i32(x - track.left),
    ensures
        p.span == (if track.spec_width() >= 1 { track.spec_width() } else { 1 }),
        p.offset == (if x - track.left < 0 {
            0
        } else if x - track.left > p.span {
            p.span as int
        } else {
            x - track.left
        }),
        0 <= p.offset <= p.span,
{
    let w = track.width();
    let span = if w >= 1 { w } else { 1 };
    let rel = x - track.left;
    let offset = if rel < 0 { 0 } else if rel > span { span } else { rel };
    SliderPosition { offset, span }
}

/// The drag grip shares no point with the restore or the close button, for
/// every client size: it is clamped to keep a gap to both.
pub proof fn lemma_drag_handle_clear_of_top_buttons(width: i32, height: i32, x: int, y: int)
    requires
        layout_size_fits(width as int, height as int),
        spec_rect_contains(spec_layout(width as int, height as int).drag_handle, x, y),
    ensures
        !spec_rect_contains(spec_layout(width as int, height as int).restore, x, y),
        !spec_rect_contains(spec_layout(width as int, height as int).close, x, y),
{
}

/// The edges of every control of the layout, in terms of the client size.
pub proof fn lemma_layout_edges(width: i32, height: i32)
    requires
        layout_size_fits(width as int, height as int),
    ensures
        ({
            let l = spec_layout(width as int, height as int);
            &&& l.restore == rect_of(12, 12, 52, 52)
            &&& l.close == rect_of(width - 52, 12, width - 12, 52)
            &&& l.play_pause == rect_of(12, height - 52, 52, height - 12)
            &&& l.skip == rect_of(60, height - 52, 100, height - 12)
            &&& l.transparency == rect_of(width - 52, height - 52, width - 12, height - 12)
            &&& l.slider_track == rect_of(12, height - 70, width - 12, height - 64)
            &&& l.drag_handle.top == 27 && l.drag_handle.bottom == 37
        }),
{
}

/// `r` moved right by `d` pixels.
pub open spec fn shifted_right(r: Rect, d: int) -> Rect {
    rect_of(r.left + d, r.top as int, r.right + d, r.bottom as int)
}

/// Making the client area `d` pixels wider leaves the left-hand controls
/// (restore, play/pause, skip) where they are, moves the right-hand ones
/// (close, transparency) right by `d`, and stretches the slider's right end by
/// `d`; nothing moves vertically.
pub proof fn lemma_layout_width_shift(width: i32, height: i32, d: int)
    requires
        layout_size_fits(width as int, height as int),
        layout_size_fits(width + d, height as int),
        width + d <= i32::MAX,
    ensures
        ({
            let a = spec_layout(width as int, height as int);
            let b = spec_layout(width + d, height as int);
            &&& b.restore == a.restore
            &&& b.play_pause == a.play_pause
            &&& b.skip == a.skip
            &&& b.close == shifted_right(a.close, d)
            &&& b.transparency == shifted_right(a.transparency, d)
            &&& b.slider_track.left == a.slider_track.left
            &&& b.slider_track.right == a.slider_track.right + d
            &&& b.slider_track.top == a.slider_track.top
            &&& b.slider_track.bottom == a.slider_track.bottom
        }),
{
}

/// On a window of at least the minimum size, the right edge resizes exactly
/// where the cursor is within `RESIZE_BORDER` of the right edge and of no
/// other edge, and a cursor further than that from all four edges drags.
pub proof fn lemma_resize_zone_edges(r: Rect, x: int, y: int)
    requires
        r.right - r.left >= PIP_MIN_WIDTH,
        r.bottom - r.top >= PIP_MIN_HEIGHT,
    ensures
        (spec_resize_zone(r, x, y) == HitZone::Right) == (r.right - x < RESIZE_BORDER && x - r.left
            >= RESIZE_BORDER && y - r.top >= RESIZE_BORDER && r.bottom - y >= RESIZE_BORDER),
        (spec_resize_zone(r, x, y) == HitZone::Left) == (x - r.left < RESIZE_BORDER && y - r.top
            >= RESIZE_BORDER && r.bottom - y >= RESIZE_BORDER),
        (x - r.left >= RESIZE_BORDER && r.right - x >= RESIZE_BORDER && y - r.top
            >= RESIZE_BORDER && r.bottom - y >= RESIZE_BORDER) ==> spec_resize_zone(r, x, y)
            == HitZone::Caption,
{
}

/// `r` moved down by `d` pixels.
pub open spec fn shifted_down(r: Rect, d: int) -> Rect {
    rect_of(r.left as int, r.top + d, r.right as int, r.bottom + d)
}

/// Making the client area `d` pixels taller leaves the top row (restore,
/// close and the drag grip) where it is and moves the bottom row and the
/// slider down by `d`; nothing moves sideways.
pub proof fn lemma_layout_height_shift(width: i32, height: i32, d: int)
    requires
        layout_size_fits(width as int, height as int),
        layout_size_fits(width as int, height + d),
        height + d <= i32::MAX,
    ensures
        ({
            let a = spec_layout(width as int, height as int);
            let b = spec_layout(width as int, height + d);
            &&& b.restore == a.restore
            &&& b.close == a.close
            &&& b.drag_handle == a.drag_handle
            &&& b.play_pause == shifted_down(a.play_pause, d)
            &&& b.skip == shifted_down(a.skip, d)
            &&& b.transparency == shifted_down(a.transparency, d)
            &&& b.slider_track == shifted_down(a.slider_track, d)
        }),
{
}

/// Every point of the slider track, and of the band `SLIDER_HIT_PAD` above and
/// below it, hits the slider unless a button covers it.
pub proof fn lemma_slider_band_hits_slider(l: Layout, x: int, y: int)
    requires
        slider_pad_fits(l),
        l.slider_track.left <= x < l.slider_track.right,
        l.slider_track.top - SLIDER_HIT_PAD <= y < l.slider_track.bottom + SLIDER_HIT_PAD,
        !spec_rect_contains(l.restore, x, y),
        !spec_rect_contains(l.close, x, y),
        !spec_rect_contains(l.play_pause, x, y),
        !spec_rect_contains(l.skip, x, y),
        !spec_rect_contains(l.transparency, x, y),
    ensures
        spec_hit(l, x, y) == HitId::Slider,
{
}

} // verus!
