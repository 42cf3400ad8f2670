use stremio_border_breaker::geometry::Rect;
use stremio_border_breaker::pip_layout::{
    hit_test, hit_test_buttons, layout_from_size, pill_regions, rounded_pill_rect,
    slider_hit_rect, slider_position, HitId, HitZone, RoundRegion, SliderPosition,
};

fn rect(left: i32, top: i32, right: i32, bottom: i32) -> Rect {
    Rect { left, top, right, bottom }
}

#[test]
fn default_size_layout() {
    let l = layout_from_size(520, 320);
    assert_eq!(l.restore, rect(12, 12, 52, 52));
    assert_eq!(l.close, rect(468, 12, 508, 52));
    assert_eq!(l.play_pause, rect(12, 268, 52, 308));
    assert_eq!(l.skip, rect(60, 268, 100, 308));
    assert_eq!(l.transparency, rect(468, 268, 508, 308));
    assert_eq!(l.slider_track, rect(12, 250, 508, 256));
    assert_eq!(l.drag_handle, rect(212, 27, 308, 37));
}

#[test]
fn drag_handle_is_clamped_between_top_buttons() {
    let l = layout_from_size(150, 200);
    assert_eq!(l.drag_handle.left, 60);
    assert_eq!(l.drag_handle.right, 90);
    let narrow = layout_from_size(100, 200);
    assert_eq!(narrow.drag_handle.left, 60);
    assert_eq!(narrow.drag_handle.right, 40);
    // Odd widths round the grip's origin toward zero.
    assert_eq!(layout_from_size(521, 320).drag_handle.left, 212);
    assert_eq!(layout_from_size(-5, 320).drag_handle.left, 60);
}

#[test]
fn hit_test_buttons_finds_each_control() {
    let l = layout_from_size(520, 320);
    assert_eq!(hit_test_buttons(&l, 20, 20), HitId::Restore);
    assert_eq!(hit_test_buttons(&l, 500, 20), HitId::Close);
    assert_eq!(hit_test_buttons(&l, 30, 300), HitId::PlayPause);
    assert_eq!(hit_test_buttons(&l, 60, 268), HitId::Skip);
    assert_eq!(hit_test_buttons(&l, 507, 307), HitId::Transparency);
    assert_eq!(hit_test_buttons(&l, 250, 253), HitId::Slider);
    assert_eq!(hit_test_buttons(&l, 250, 240), HitId::Slider);
    assert_eq!(hit_test_buttons(&l, 250, 265), HitId::Slider);
    assert_eq!(hit_test_buttons(&l, 250, 239), HitId::Empty);
    assert_eq!(hit_test_buttons(&l, 250, 266), HitId::Empty);
    assert_eq!(hit_test_buttons(&l, 250, 30), HitId::Empty);
    assert_eq!(hit_test_buttons(&l, 52, 20), HitId::Empty);
}

#[test]
fn slider_band_lies_between_the_button_rows() {
    let l = layout_from_size(520, 320);
    assert_eq!(hit_test_buttons(&l, 56, 260), HitId::Slider);
    assert_eq!(hit_test_buttons(&l, 56, 268), HitId::Empty);
    assert_eq!(hit_test_buttons(&l, 30, 268), HitId::PlayPause);
}

#[test]
fn slider_hit_rect_pads_vertically() {
    assert_eq!(slider_hit_rect(&rect(12, 250, 508, 256)), rect(12, 240, 508, 266));
}

#[test]
fn pill_regions_for_default_size() {
    let v = pill_regions(520, 320);
    let r = |left, top, right, bottom, diameter| RoundRegion { left, top, right, bottom, diameter };
    assert_eq!(
        v,
        vec![
            r(12, 12, 53, 53, 24),
            r(468, 12, 509, 53, 24),
            r(12, 268, 53, 309, 24),
            r(60, 268, 101, 309, 24),
            r(468, 268, 509, 309, 24),
            r(12, 240, 509, 267, 32),
            r(212, 27, 309, 38, 10),
        ]
    );
}

#[test]
fn rounded_pill_diameter_is_at_least_two() {
    assert_eq!(rounded_pill_rect(&rect(0, 0, 10, 10), 0).diameter, 2);
    assert_eq!(rounded_pill_rect(&rect(0, 0, 10, 10), -3).diameter, 2);
    assert_eq!(rounded_pill_rect(&rect(0, 0, 10, 10), 1).diameter, 2);
    assert_eq!(rounded_pill_rect(&rect(0, 0, 10, 10), 5).diameter, 10);
    assert_eq!(rounded_pill_rect(&rect(1, 2, 10, 20), 5).right, 11);
    assert_eq!(rounded_pill_rect(&rect(1, 2, 10, 20), 5).bottom, 21);
}

#[test]
fn slider_position_clamps_to_track() {
    let track = rect(12, 250, 508, 256);
    assert_eq!(slider_position(&track, 12), SliderPosition { offset: 0, span: 496 });
    assert_eq!(slider_position(&track, 260), SliderPosition { offset: 248, span: 496 });
    assert_eq!(slider_position(&track, 0), SliderPosition { offset: 0, span: 496 });
    assert_eq!(slider_position(&track, 900), SliderPosition { offset: 496, span: 496 });
    let empty = rect(20, 0, 10, 6);
    assert_eq!(slider_position(&empty, 25), SliderPosition { offset: 1, span: 1 });
}

fn lparam(x: i32, y: i32) -> isize {
    (((y & 0xFFFF) << 16) | (x & 0xFFFF)) as isize
}

#[test]
fn resize_zones_of_a_large_window() {
    let w = Some(rect(100, 100, 620, 420));
    assert_eq!(hit_test(w, lparam(101, 101)), HitZone::TopLeft);
    assert_eq!(hit_test(w, lparam(615, 101)), HitZone::TopRight);
    assert_eq!(hit_test(w, lparam(101, 415)), HitZone::BottomLeft);
    assert_eq!(hit_test(w, lparam(615, 415)), HitZone::BottomRight);
    assert_eq!(hit_test(w, lparam(107, 300)), HitZone::Left);
    assert_eq!(hit_test(w, lparam(108, 300)), HitZone::Caption);
    assert_eq!(hit_test(w, lparam(613, 300)), HitZone::Right);
    assert_eq!(hit_test(w, lparam(612, 300)), HitZone::Caption);
    assert_eq!(hit_test(w, lparam(300, 100)), HitZone::Top);
    assert_eq!(hit_test(w, lparam(300, 419)), HitZone::Bottom);
    assert_eq!(hit_test(w, lparam(300, 300)), HitZone::Caption);
}

#[test]
fn small_or_unknown_windows_only_drag() {
    assert_eq!(hit_test(None, lparam(0, 0)), HitZone::Caption);
    let small = Some(rect(0, 0, 279, 400));
    assert_eq!(hit_test(small, lparam(1, 1)), HitZone::Caption);
    let short = Some(rect(0, 0, 400, 159));
    assert_eq!(hit_test(short, lparam(1, 1)), HitZone::Caption);
    let minimum = Some(rect(0, 0, 280, 160));
    assert_eq!(hit_test(minimum, lparam(1, 1)), HitZone::TopLeft);
}

#[test]
fn resize_zones_with_negative_screen_coordinates() {
    let w = Some(rect(-1000, -500, -480, -180));
    assert_eq!(hit_test(w, lparam(-999, -499)), HitZone::TopLeft);
    assert_eq!(hit_test(w, lparam(-700, -300)), HitZone::Caption);
    assert_eq!(hit_test(w, lparam(-481, -300)), HitZone::Right);
}

#[test]
fn taller_window_moves_only_the_bottom_row() {
    let a = layout_from_size(520, 320);
    let b = layout_from_size(520, 400);
    assert_eq!(b.restore, a.restore);
    assert_eq!(b.close, a.close);
    assert_eq!(b.drag_handle, a.drag_handle);
    let down = |r: Rect| rect(r.left, r.top + 80, r.right, r.bottom + 80);
    assert_eq!(b.play_pause, down(a.play_pause));
    assert_eq!(b.skip, down(a.skip));
    assert_eq!(b.transparency, down(a.transparency));
    assert_eq!(b.slider_track, down(a.slider_track));
}
