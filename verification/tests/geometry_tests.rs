use stremio_border_breaker::geometry::{
    inflate, lparam_from_point, placement_of, point_from_lparam, rect_contains, size_from_lparam,
    Rect,
};

fn rect(left: i32, top: i32, right: i32, bottom: i32) -> Rect {
    Rect { left, top, right, bottom }
}

#[test]
fn contains_excludes_right_and_bottom_edges() {
    let r = rect(10, 20, 30, 40);
    assert!(rect_contains(&r, 10, 20));
    assert!(rect_contains(&r, 29, 39));
    assert!(!rect_contains(&r, 30, 39));
    assert!(!rect_contains(&r, 29, 40));
    assert!(!rect_contains(&r, 9, 25));
    assert!(!rect_contains(&r, 15, 19));
}

#[test]
fn inflate_grows_every_side() {
    assert_eq!(inflate(&rect(10, 20, 30, 40), 1), rect(9, 19, 31, 41));
    assert_eq!(inflate(&rect(10, 20, 30, 40), -2), rect(12, 22, 28, 38));
}

#[test]
fn placement_is_origin_and_extent() {
    assert_eq!(placement_of(&rect(100, 50, 620, 370)), (100, 50, 520, 320));
    assert_eq!(rect(-5, -5, 5, 10).width(), 10);
    assert_eq!(rect(-5, -5, 5, 10).height(), 15);
}

#[test]
fn point_from_lparam_sign_extends_words() {
    assert_eq!(point_from_lparam(0x0014_000A), (10, 20));
    assert_eq!(point_from_lparam(0xFFFF_FFFEu32 as i32 as isize), (-2, -1));
    assert_eq!(point_from_lparam(0x8000_7FFFu32 as i32 as isize), (32767, -32768));
}

#[test]
fn size_from_lparam_reads_unsigned_words() {
    assert_eq!(size_from_lparam(0x0140_0208), (520, 320));
    assert_eq!(size_from_lparam(0xFFFF_FFFFu32 as i32 as isize), (65535, 65535));
}

#[test]
fn lparam_round_trips_points() {
    for &(x, y) in &[(0, 0), (10, 20), (-1, -1), (-1920, 1080), (32767, -32768)] {
        let packed = lparam_from_point(x, y);
        assert_eq!(point_from_lparam(packed as isize), (x, y));
    }
    assert_eq!(lparam_from_point(1, 2), 0x0002_0001);
}
