use stremio_border_breaker::pip_layout::{layout_from_size, HitId};
use stremio_border_breaker::pip_overlay::{
    control_glyph, nc_calc_size_result, overlay_palette, pill_fill, pip_initial_size,
    transparency_plan, HoverAction, HoverTracker, MoveAction, OverlayAction, OverlayControls,
    PillFill, TransparencyPlan, HOVER_HIDE_AFTER_MS, OPAQUE_ALPHA, TRANSPARENT_ALPHA,
};
use stremio_border_breaker::win32::argb;

#[test]
fn clicks_map_to_actions() {
    let l = layout_from_size(520, 320);
    let mut c = OverlayControls::new();
    assert_eq!(c.on_button_down(&l, 20, 20, false), OverlayAction::Close);
    assert_eq!(c.on_button_down(&l, 500, 20, false), OverlayAction::Close);
    assert_eq!(c.on_button_down(&l, 30, 300, false), OverlayAction::TogglePause);
    assert_eq!(c.on_button_down(&l, 80, 300, false), OverlayAction::SkipForward);
    assert_eq!(c.on_button_down(&l, 480, 300, false), OverlayAction::SetTransparency(true));
    assert_eq!(c.on_button_down(&l, 480, 300, true), OverlayAction::SetTransparency(false));
    assert_eq!(c.on_button_down(&l, 250, 150, false), OverlayAction::DragWindow);
    assert!(!c.dragging_slider);
    assert_eq!(c.on_button_down(&l, 250, 253, false), OverlayAction::StartSeek);
    assert!(c.dragging_slider);
}

#[test]
fn slider_drag_seeks_until_release() {
    let l = layout_from_size(520, 320);
    let mut c = OverlayControls::new();
    c.on_button_down(&l, 100, 253, false);
    assert_eq!(c.on_mouse_move(&l, 300, 100), MoveAction::Seek);
    assert_eq!(c.hovered, HitId::Empty);
    assert!(c.on_button_up());
    assert!(!c.dragging_slider);
    assert!(!c.on_button_up());
}

#[test]
fn hovering_repaints_only_on_change() {
    let l = layout_from_size(520, 320);
    let mut c = OverlayControls::new();
    assert_eq!(c.on_mouse_move(&l, 250, 150), MoveAction::Ignore);
    assert_eq!(c.on_mouse_move(&l, 20, 20), MoveAction::Repaint);
    assert_eq!(c.hovered, HitId::Restore);
    assert_eq!(c.on_mouse_move(&l, 25, 25), MoveAction::Ignore);
    assert_eq!(c.on_mouse_move(&l, 250, 150), MoveAction::Repaint);
    assert_eq!(c.hovered, HitId::Empty);
}

#[test]
fn hover_overlay_shows_and_hides_after_delay() {
    let mut t = HoverTracker::new(1_000);
    assert!(!t.overlay_visible);
    assert_eq!(t.on_timer_tick(true, true, 1_180), HoverAction::ShowOverlay);
    assert!(t.overlay_visible);
    assert_eq!(t.last_cursor_activity_ms, 1_180);
    assert_eq!(t.on_timer_tick(true, true, 1_360), HoverAction::Keep);
    assert_eq!(t.on_timer_tick(true, false, 1_360 + HOVER_HIDE_AFTER_MS), HoverAction::Keep);
    assert!(t.overlay_visible);
    assert_eq!(t.on_timer_tick(true, false, 1_361 + HOVER_HIDE_AFTER_MS), HoverAction::HideOverlay);
    assert!(!t.overlay_visible);
    assert_eq!(t.on_timer_tick(true, false, 10_000), HoverAction::Keep);
}

#[test]
fn hover_ignores_hidden_window_and_clock_going_back() {
    let mut t = HoverTracker::new(5_000);
    assert_eq!(t.on_timer_tick(false, true, 6_000), HoverAction::Keep);
    assert_eq!(t, HoverTracker::new(5_000));
    t.on_timer_tick(true, true, 6_000);
    assert_eq!(t.on_timer_tick(true, false, 1_000), HoverAction::Keep);
    assert!(t.overlay_visible);
}

#[test]
fn showing_the_window_reveals_the_overlay() {
    let mut t = HoverTracker::new(0);
    assert!(!t.on_show(500, false));
    assert!(!t.overlay_visible);
    assert_eq!(t.last_cursor_activity_ms, 500);
    assert!(t.on_show(700, true));
    assert!(t.overlay_visible);
    assert_eq!(t.last_cursor_activity_ms, 700);
}

#[test]
fn transparency_plans() {
    let layered = 0x0008_0000u32;
    assert_eq!(
        transparency_plan(0x100, true),
        TransparencyPlan { new_ex_style: Some(0x0008_0100), alpha: Some(TRANSPARENT_ALPHA) }
    );
    assert_eq!(
        transparency_plan(layered, true),
        TransparencyPlan { new_ex_style: None, alpha: Some(150) }
    );
    assert_eq!(
        transparency_plan(layered | 0x8, false),
        TransparencyPlan { new_ex_style: None, alpha: Some(OPAQUE_ALPHA) }
    );
    assert_eq!(transparency_plan(0x8, false), TransparencyPlan { new_ex_style: None, alpha: None });
}

#[test]
fn pill_fill_priorities() {
    assert_eq!(pill_fill(true, HitId::Transparency, HitId::Transparency), PillFill::Accent);
    assert_eq!(pill_fill(false, HitId::Skip, HitId::Skip), PillFill::Hover);
    assert_eq!(pill_fill(false, HitId::Skip, HitId::Close), PillFill::Background);
}

#[test]
fn glyphs_of_controls() {
    assert_eq!(control_glyph(HitId::Restore, false), Some("\u{21A9}"));
    assert_eq!(control_glyph(HitId::Close, false), Some("\u{2715}"));
    assert_eq!(control_glyph(HitId::PlayPause, true), Some("\u{25B6}"));
    assert_eq!(control_glyph(HitId::PlayPause, false), Some("\u{23F8}"));
    assert_eq!(control_glyph(HitId::Skip, false), Some("\u{23ED}"));
    assert_eq!(control_glyph(HitId::Transparency, true), Some("\u{25D0}"));
    assert_eq!(control_glyph(HitId::Slider, false), None);
    assert_eq!(control_glyph(HitId::Empty, true), None);
}

#[test]
fn palette_colours() {
    let p = overlay_palette();
    assert_eq!(p.background, 0xB40E_0E12);
    assert_eq!(p.background_hover, argb(210, 30, 30, 36));
    assert_eq!(p.accent, 0xDC7B_5BF5);
    assert_eq!(p.text, 0xFFFF_FFFF);
    assert_eq!(p.slider_track, 0x6EDC_DCDC);
    assert_eq!(p.slider_fill, 0xF57B_5BF5);
    assert_eq!(p.slider_thumb, 0xFFFF_FFFF);
}

#[test]
fn initial_size_and_frame_removal() {
    assert_eq!(pip_initial_size(None), (520, 320));
    assert_eq!(pip_initial_size(Some((640, 360))), (640, 360));
    assert_eq!(nc_calc_size_result(1), Some(0));
    assert_eq!(nc_calc_size_result(0), None);
}
