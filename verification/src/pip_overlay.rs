//! Behaviour of the picture-in-picture window and its controls overlay:
//! what a click or a mouse move on the overlay does, when the overlay is shown
//! or hidden, how transparency is applied and how the controls are drawn.
use vstd::prelude::*;
use crate::pip_layout::{
    HitId, Layout, PIP_DEFAULT_HEIGHT, PIP_DEFAULT_WIDTH, hit_test_buttons, slider_pad_fits,
    spec_hit,
};
use crate::win32::{WS_EX_LAYERED, argb, spec_argb};

verus! {

/// How often the hover timer fires, in milliseconds.
pub const HOVER_POLL_MS: u32 = 180;
/// How long the controls stay up after the cursor has left the window.
pub const HOVER_HIDE_AFTER_MS: u128 = 2200;
/// Window alpha while transparency is on.
pub const TRANSPARENT_ALPHA: u8 = 150;
/// Window alpha while transparency is off.
pub const OPAQUE_ALPHA: u8 = 255;
/// How far the skip button jumps ahead, in seconds.
pub const SKIP_SECONDS: u32 = 30;

/// Size of a newly built picture-in-picture window: the remembered size, or
/// the default one.
pub fn pip_initial_size(initial: Option<(i32, i32)>) -> (s: (i32, i32))
    ensures
        s == (match initial {
            Some(size) => size,
            None => (PIP_DEFAULT_WIDTH, PIP_DEFAULT_HEIGHT),
        }),
{
    match initial {
        Some(size) => size,
        None => (PIP_DEFAULT_WIDTH, PIP_DEFAULT_HEIGHT),
    }
}

/// Answer to `WM_NCCALCSIZE`: when the client size is requested (`wparam` is
/// 1), returning 0 makes the client area cover the whole window, which removes
/// the frame; otherwise default handling applies (`None`).
pub fn nc_calc_size_result(wparam: usize) -> (r: Option<isize>)
    ensures
        r == (if wparam == 1 {
            Some(0isize)
        } else {
            None
        }),
{
    if wparam == 1 {
        Some(0)
    } else {
        None
    }
}

/// What a left click on the overlay asks the window to do.
#[derive(Clone, Copy, Debug, PartialEq, Eq, Structural)]
pub enum OverlayAction {
    /// The restore or close button: hand the video back to the main window.
    Close,
    /// Toggle play/pause in the player.
    TogglePause,
    /// Seek `SKIP_SECONDS` ahead of the current position.
    SkipForward,
    /// Turn window transparency on (`true`) or off.
    SetTransparency(bool),
    /// Capture the mouse and seek to the clicked slider position.
    StartSeek,
    /// Start moving the whole window with the mouse.
    DragWindow,
}

/// What a mouse move over the overlay asks the window to do.
#[derive(Clone, Copy, Debug, PartialEq, Eq, Structural)]
pub enum MoveAction {
    /// A slider drag is in progress: seek to the cursor position.
    Seek,
    /// The hovered control changed: repaint.
    Repaint,
    /// Nothing to do.
    Ignore,
}

/// Click and hover state of the overlay controls.
#[derive(Clone, Copy, Debug, PartialEq, Eq, Structural)]
pub struct OverlayControls {
    pub dragging_slider: bool,
    pub hovered: HitId,
}

/// The action for a click on the control `hit` while transparency is `transparent`.
pub open spec fn spec_click_action(hit: HitId, transparent: bool) -> OverlayAction {
    match hit {
        HitId::Restore | HitId::Close => OverlayAction::Close,
        HitId::PlayPause => OverlayAction::TogglePause,
        HitId::Skip => OverlayAction::SkipForward,
        HitId::Transparency => OverlayAction::SetTransparency(!transparent),
        HitId::Slider => OverlayAction::StartSeek,
        HitId::Empty => OverlayAction::DragWindow,
    }
}

impl OverlayControls {
    /// No drag in progress and nothing hovered.
    pub fn new() -> (c: Self)
        ensures
            !c.dragging_slider,
            c.hovered == HitId::Empty,
    {
        OverlayControls { dragging_slider: false, hovered: HitId::Empty }
    }

    /// Left button pressed at `(x, y)` in overlay coordinates. A press on the
    /// slider starts a drag; every other press leaves the drag state alone.
    pub fn on_button_down(&mut self, layout: &Layout, x: i32, y: i32, transparent: bool) -> (a:
        OverlayAction)
        requires
            slider_pad_fits(*layout),
        ensures
            a == spec_click_action(spec_hit(*layout, x as int, y as int), transparent),
            final(self).dragging_slider == (old(self).dragging_slider || spec_hit(
                *layout,
                x as int,
                y as int,
            ) == HitId::Slider),
            final(self).hovered == old(self).hovered,
    {
        let hit = hit_test_buttons(layout, x, y);
        match hit {
            HitId::Restore | HitId::Close => OverlayAction::Close,
            HitId::PlayPause => OverlayAction::TogglePause,
            HitId::Skip => OverlayAction::SkipForward,
            HitId::Transparency => OverlayAction::SetTransparency(!transparent),
            HitId::Slider => {
                self.dragging_slider = true;
                OverlayAction::StartSeek
            },
            HitId::Empty => OverlayAction::DragWindow,
        }
    }

    /// Mouse moved to `(x, y)`. While a slider drag is in progress every move
    /// seeks; otherwise the hovered control is tracked and a change repaints.
    pub fn on_mouse_move(&mut self, layout: &Layout, x: i32, y: i32) -> (a: MoveAction)
        requires
            slider_pad_fits(*layout),
        ensures
            final(self).dragging_slider == old(self).dragging_slider,
            old(self).dragging_slider ==> a == MoveAction::Seek && final(self).hovered == old(
                self,
            ).hovered,
            !old(self).dragging_slider ==> {
                &&& final(self).hovered == spec_hit(*layout, x as int, y as int)
                &&& a == (if old(self).hovered == spec_hit(*layout, x as int, y as int) {
                    MoveAction::Ignore
                } else {
                    MoveAction::Repaint
                })
            },
    {
        if self.dragging_slider {
            return MoveAction::Seek;
        }
        let hit = hit_test_buttons(layout, x, y);
        if self.hovered != hit {
            self.hovered = hit;
            MoveAction::Repaint
        } else {
            MoveAction::Ignore
        }
    }

    /// Left button released: ends a slider drag. Returns whether a drag was in
    /// progress, in which case the mouse capture must be released.
    pub fn on_button_up(&mut self) -> (release: bool)
        ensures
            release == old(self).dragging_slider,
            !final(self).dragging_slider,
            final(self).hovered == old(self).hovered,
    {
        if self.dragging_slider {
            self.dragging_slider = false;
            true
        } else {
            false
        }
    }
}

/// Clicking the transparency button twice restores the setting it started from.
pub proof fn lemma_transparency_click_twice(l: Layout, x: int, y: int, transparent: bool)
    requires
        spec_hit(l, x, y) == HitId::Transparency,
    ensures
        spec_click_action(spec_hit(l, x, y), transparent) == OverlayAction::SetTransparency(
            !transparent,
        ),
        spec_click_action(spec_hit(l, x, y), !transparent) == OverlayAction::SetTransparency(
            transparent,
        ),
{
}

/// What the hover timer asks the window to do with the controls overlay.
#[derive(Clone, Copy, Debug, PartialEq, Eq, Structural)]
pub enum HoverAction {
    Keep,
    ShowOverlay,
    HideOverlay,
}

/// Whether the controls overlay is up, and when the cursor was last seen over
/// the window (milliseconds since the Unix epoch).
#[derive(Clone, Copy, Debug, PartialEq, Eq, Structural)]
pub struct HoverTracker {
    pub overlay_visible: bool,
    pub last_cursor_activity_ms: u128,
}

/// Milliseconds from `since` to `now`, or 0 when the clock went backwards.
pub open spec fn elapsed_ms(now: u128, since: u128) -> int {
    if now >= since {
        now - since
    } else {
        0
    }
}

impl HoverTracker {
    /// Overlay hidden, cursor activity recorded at `now`.
    pub fn new(now: u128) -> (t: Self)
        ensures
            !t.overlay_visible,
            t.last_cursor_activity_ms == now,
    {
        HoverTracker { overlay_visible: false, last_cursor_activity_ms: now }
    }

    /// One hover-timer tick at time `now`. Nothing happens while the window is
    /// hidden. A cursor over the window records activity and reveals the
    /// overlay; once the cursor has been away for more than
    /// `HOVER_HIDE_AFTER_MS` the overlay is hidden again.
    pub fn on_timer_tick(&mut self, window_visible: bool, cursor_over: bool, now: u128) -> (a:
        HoverAction)
        ensures
            !window_visible ==> a == HoverAction::Keep && *final(self) == *old(self),
            window_visible && cursor_over ==> {
                &&& final(self).last_cursor_activity_ms == now
                &&& final(self).overlay_visible
                &&& a == (if old(self).overlay_visible {
                    HoverAction::Keep
                } else {
                    HoverAction::ShowOverlay
                })
            },
            window_visible && !cursor_over ==> {
                &&& final(self).last_cursor_activity_ms == old(self).last_cursor_activity_ms
                &&& if old(self).overlay_visible && elapsed_ms(
                    now,
                    old(self).last_cursor_activity_ms,
                ) > HOVER_HIDE_AFTER_MS {
                    a == HoverAction::HideOverlay && !final(self).overlay_visible
                } else {
                    a == HoverAction::Keep && final(self).overlay_visible == old(
                        self,
                    ).overlay_visible
                }
            },
    {
        if !window_visible {
            return HoverAction::Keep;
        }
        if cursor_over {
            self.last_cursor_activity_ms = now;
            if !self.overlay_visible {
                self.overlay_visible = true;
                HoverAction::ShowOverlay
            } else {
                HoverAction::Keep
            }
        } else if self.overlay_visible && now.saturating_sub(self.last_cursor_activity_ms)
            > HOVER_HIDE_AFTER_MS {
            self.overlay_visible = false;
            HoverAction::HideOverlay
        } else {
            HoverAction::Keep
        }
    }

    /// The window is shown at time `now`: activity is recorded and, when the
    /// overlay exists, it is revealed. Returns whether to reveal it.
    pub fn on_show(&mut self, now: u128, has_overlay: bool) -> (reveal: bool)
        ensures
            reveal == has_overlay,
            final(self).last_cursor_activity_ms == now,
            final(self).overlay_visible == (old(self).overlay_visible || has_overlay),
    {
        self.last_cursor_activity_ms = now;
        if has_overlay {
            self.overlay_visible = true;
        }
        has_overlay
    }
}

/// How to bring the window to the requested transparency: the new extended
/// style to set, if any, and the alpha to apply, if any.
#[derive(Clone, Copy, Debug, PartialEq, Eq, Structural)]
pub struct TransparencyPlan {
    pub new_ex_style: Option<u32>,
    pub alpha: Option<u8>,
}

/// Turning transparency on makes the window layered (if it is not yet) with
/// alpha `TRANSPARENT_ALPHA`; turning it off keeps a layered window layered
/// but fully opaque, and leaves a non-layered window alone.
pub open spec fn spec_transparency_plan(ex_style: u32, on: bool) -> TransparencyPlan {
    let layered = ex_style & WS_EX_LAYERED != 0;
    if on {
        TransparencyPlan {
            new_ex_style: if layered {
                None
            } else {
                Some(ex_style | WS_EX_LAYERED)
            },
            alpha: Some(TRANSPARENT_ALPHA),
        }
    } else {
        TransparencyPlan { new_ex_style: None, alpha: if layered {
            Some(OPAQUE_ALPHA)
        } else {
            None
        } }
    }
}

/// Plans the style and alpha changes that apply transparency `on` to a window
/// whose extended style is `ex_style`.
pub fn transparency_plan(ex_style: u32, on: bool) -> (p: TransparencyPlan)
    ensures
        p == spec_transparency_plan(ex_style, on),
{
    let layered = ex_style & WS_EX_LAYERED != 0;
    if on {
        let new_ex_style = if layered {
            None
        } else {
            Some(ex_style | WS_EX_LAYERED)
        };
        TransparencyPlan { new_ex_style, alpha: Some(TRANSPARENT_ALPHA) }
    } else {
        TransparencyPlan { new_ex_style: None, alpha: if layered {
            Some(OPAQUE_ALPHA)
        } else {
            None
        } }
    }
}

/// Which brush fills a control pill.
#[derive(Clone, Copy, Debug, PartialEq, Eq, Structural)]
pub enum PillFill {
    Accent,
    Hover,
    Background,
}

/// The accent colour wins over hover highlighting, which wins over the plain background.
pub fn pill_fill(accent: bool, hovered: HitId, this_hit: HitId) -> (f: PillFill)
    ensures
        f == (if accent {
            PillFill::Accent
        } else if hovered == this_hit {
            PillFill::Hover
        } else {
            PillFill::Background
        }),
{
    if accent {
        PillFill::Accent
    } else if hovered == this_hit {
        PillFill::Hover
    } else {
        PillFill::Background
    }
}

/// The glyph drawn on a control, if it has one: a play triangle while paused
/// and a pause sign while playing on the play/pause button.
pub open spec fn spec_control_glyph(hit: HitId, paused: bool) -> Option<Seq<char>> {
    match hit {
        HitId::Restore => Some("\u{21A9}"@),
        HitId::Close => Some("\u{2715}"@),
        HitId::PlayPause => Some(
            if paused {
                "\u{25B6}"@
            } else {
                "\u{23F8}"@
            },
        ),
        HitId::Skip => Some("\u{23ED}"@),
        HitId::Transparency => Some("\u{25D0}"@),
        HitId::Slider | HitId::Empty => None,
    }
}

/// Glyph for an overlay control.
pub fn control_glyph(hit: HitId, paused: bool) -> (g: Option<&'static str>)
    ensures
        match g {
            Some(s) => spec_control_glyph(hit, paused) == Some(s@),
            None => spec_control_glyph(hit, paused) is None,
        },
{
    match hit {
        HitId::Restore => Some("\u{21A9}"),
        HitId::Close => Some("\u{2715}"),
        HitId::PlayPause => Some(
            if paused {
                "\u{25B6}"
            } else {
                "\u{23F8}"
            },
        ),
        HitId::Skip => Some("\u{23ED}"),
        HitId::Transparency => Some("\u{25D0}"),
        HitId::Slider | HitId::Empty => None,
    }
}

/// Colours of the overlay, as packed GDI+ colour values.
#[derive(Clone, Copy, Debug, PartialEq, Eq, Structural)]
pub struct OverlayPalette {
    pub background: u32,
    pub background_hover: u32,
    pub accent: u32,
    pub text: u32,
    pub slider_track: u32,
    pub slider_fill: u32,
    pub slider_thumb: u32,
}

/// Translucent dark glass pills, lighter on hover, a purple accent and white glyphs.
pub fn overlay_palette() -> (p: OverlayPalette)
    ensures
        p.background == spec_argb(180, 14, 14, 18),
        p.background_hover == spec_argb(210, 30, 30, 36),
        p.accent == spec_argb(220, 123, 91, 245),
        p.text == spec_argb(255, 255, 255, 255),
        p.slider_track == spec_argb(110, 220, 220, 220),
        p.slider_fill == spec_argb(245, 123, 91, 245),
        p.slider_thumb == spec_argb(255, 255, 255, 255),
{
    OverlayPalette {
        background: argb(180, 14, 14, 18),
        background_hover: argb(210, 30, 30, 36),
        accent: argb(220, 123, 91, 245),
        text: argb(255, 255, 255, 255),
        slider_track: argb(110, 220, 220, 220),
        slider_fill: argb(245, 123, 91, 245),
        slider_thumb: argb(255, 255, 255, 255),
    }
}

} // verus!
