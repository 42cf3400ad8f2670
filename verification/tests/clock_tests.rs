use stremio_border_breaker::clock::now_ms;

#[test]
fn clock_is_after_2020_and_monotone_enough() {
    let a = now_ms();
    assert!(a > 1_577_836_800_000);
    let b = now_ms();
    assert!(b + 1_000 >= a);
}
