use stremio_border_breaker::win32::{
    argb, clip_siblings, pip_frame_style, wide_zero_terminated, with_topmost, WS_CAPTION,
    WS_CLIPSIBLINGS, WS_EX_TOPMOST, WS_THICKFRAME,
};

#[test]
fn argb_packs_channels_high_to_low() {
    assert_eq!(argb(255, 1, 2, 3), 0xFF01_0203);
    assert_eq!(argb(180, 14, 14, 18), 0xB40E_0E12);
    assert_eq!(argb(0, 0, 0, 0), 0);
    let c = argb(220, 123, 91, 245);
    assert_eq!(c >> 24, 220);
    assert_eq!((c >> 16) & 0xFF, 123);
    assert_eq!((c >> 8) & 0xFF, 91);
    assert_eq!(c & 0xFF, 245);
}

#[test]
fn pip_frame_drops_caption_and_keeps_thick_frame() {
    // WS_OVERLAPPEDWINDOW | WS_VISIBLE
    let style = 0x10CF_0000;
    let s = pip_frame_style(style);
    assert_eq!(s, 0x1004_0000);
    assert_eq!(s & WS_CAPTION, 0);
    assert_eq!(s & WS_THICKFRAME, WS_THICKFRAME);
    assert_eq!(pip_frame_style(0), WS_THICKFRAME);
}

#[test]
fn topmost_and_clip_siblings_bits() {
    assert_eq!(with_topmost(0x100), 0x108);
    assert_eq!(with_topmost(WS_EX_TOPMOST), WS_EX_TOPMOST);
    let style = 0x5000_0000;
    let attached = clip_siblings(style, true);
    assert_eq!(attached, 0x5400_0000);
    assert_eq!(attached & WS_CLIPSIBLINGS, WS_CLIPSIBLINGS);
    assert_eq!(clip_siblings(attached, false), style);
    assert_eq!(clip_siblings(style, false), style);
}

#[test]
fn wide_strings_are_utf16_with_terminator() {
    assert_eq!(wide_zero_terminated(""), vec![0]);
    assert_eq!(
        wide_zero_terminated("StremioPipOverlay"),
        "StremioPipOverlay".encode_utf16().chain(std::iter::once(0)).collect::<Vec<u16>>()
    );
    assert_eq!(wide_zero_terminated("\u{23F8}"), vec![0x23F8, 0]);
    assert_eq!(wide_zero_terminated("a\u{1F3AC}"), vec![0x61, 0xD83C, 0xDFAC, 0]);
}
