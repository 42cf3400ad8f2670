//! Bookkeeping of the main window's placement and style: the state flags it
//! reports, centring, full-screen toggling, always-on-top toggling and the
//! geometry that is saved between runs.
use vstd::prelude::*;
use crate::geometry::{Rect, extent_fits, trunc_div};
use crate::win32::{
    WS_CAPTION, WS_EX_CLIENTEDGE, WS_EX_DLGMODALFRAME, WS_EX_STATICEDGE, WS_EX_TOPMOST,
    WS_EX_WINDOWEDGE, WS_THICKFRAME,
};

verus! {

/// Window-state flags reported to the web UI.
pub const STATE_MINIMIZED: u32 = 0x01;
pub const STATE_MAXIMIZED: u32 = 0x02;
pub const STATE_FULL_SCREEN: u32 = 0x04;
pub const STATE_ACTIVE: u32 = 0x08;

/// Style bits removed from the window while it is full screen.
pub const FULL_SCREEN_REMOVED_STYLE: i32 = WS_CAPTION | WS_THICKFRAME;
/// Extended style bits removed from the window while it is full screen.
pub const FULL_SCREEN_REMOVED_EX_STYLE: i32 = WS_EX_DLGMODALFRAME | WS_EX_WINDOWEDGE
    | WS_EX_CLIENTEDGE | WS_EX_STATICEDGE;

/// Placement and style of the main window, as remembered across full-screen
/// switches.
pub struct WindowStyle {
    pub full_screen: bool,
    pub pos: (i32, i32),
    pub size: (i32, i32),
    pub style: i32,
    pub ex_style: i32,
}

impl Clone for WindowStyle {
    fn clone(&self) -> (c: Self)
        ensures
            c == *self,
    {
        WindowStyle {
            full_screen: self.full_screen,
            pos: self.pos,
            size: self.size,
            style: self.style,
            ex_style: self.ex_style,
        }
    }
}

impl Default for WindowStyle {
    /// Windowed, at the origin, with zero size and no styles recorded.
    fn default() -> (w: Self)
        ensures
            !w.full_screen,
            w.pos == (0i32, 0i32),
            w.size == (0i32, 0i32),
            w.style == 0,
            w.ex_style == 0,
    {
        WindowStyle { full_screen: false, pos: (0, 0), size: (0, 0), style: 0, ex_style: 0 }
    }
}

/// Window position and size saved between runs.
#[derive(Clone, Copy, Debug, PartialEq, Eq, Structural)]
pub struct SavedWindowGeometry {
    pub x: i32,
    pub y: i32,
    pub width: i32,
    pub height: i32,
    pub maximized: bool,
}

/// The window's rectangle and styles, read just before a full-screen toggle.
#[derive(Clone, Copy, Debug, PartialEq, Eq, Structural)]
pub struct WindowSnapshot {
    pub rect: Rect,
    pub style: i32,
    pub ex_style: i32,
}

/// What a full-screen toggle asks the window to do.
#[derive(Clone, Copy, Debug, PartialEq, Eq, Structural)]
pub enum FullScreenStep {
    /// Leave full screen: put these styles back and show the window at its
    /// remembered position, always on top when `topmost`.
    Restore { style: i32, ex_style: i32, topmost: bool },
    /// Enter full screen: set these styles and cover the monitor at
    /// `(x, y, width, height)`, not on top.
    Enter { style: i32, ex_style: i32, x: i32, y: i32, width: i32, height: i32 },
    /// The monitor could not be read; the window stays as it is.
    MonitorUnavailable,
}

/// Insert-after position of a window in the z order.
#[derive(Clone, Copy, Debug, PartialEq, Eq, Structural)]
pub enum ZOrder {
    Topmost,
    NotTopmost,
}

/// The state flags: minimised, maximised, full screen and active.
pub open spec fn spec_window_state(
    minimized: bool,
    maximized: bool,
    full_screen: bool,
    active: bool,
) -> u32 {
    ((if minimized {
        STATE_MINIMIZED
    } else {
        0
    }) + (if maximized {
        STATE_MAXIMIZED
    } else {
        0
    }) + (if full_screen {
        STATE_FULL_SCREEN
    } else {
        0
    }) + (if active {
        STATE_ACTIVE
    } else {
        0
    })) as u32
}

/// Sizes for which centring computes without overflow.
pub open spec fn center_fits(monitor_w: int, monitor_h: int, min_width: int, min_height: int) -> bool {
    let small = if monitor_w <= monitor_h {
        monitor_w
    } else {
        monitor_h
    };
    let side = trunc_div(small * 70, 100);
    let size = spec_center_size(monitor_w, monitor_h, min_width, min_height);
    &&& i32::MIN <= small * 70 <= i32::MAX
    &&& i32::MIN <= side * 16 <= i32::MAX
    &&& i32::MIN <= monitor_w - size.0 <= i32::MAX
    &&& i32::MIN <= monitor_h - size.1 <= i32::MAX
}

/// The centred size: 70% of the monitor's shorter side as the height and a
/// 16:9 width, each at least the given minimum.
pub open spec fn spec_center_size(monitor_w: int, monitor_h: int, min_width: int, min_height: int) -> (
    int,
    int,
) {
    let small = if monitor_w <= monitor_h {
        monitor_w
    } else {
        monitor_h
    };
    let side = trunc_div(small * 70, 100);
    let w = trunc_div(side * 16, 9);
    (if w >= min_width {
        w
    } else {
        min_width
    }, if side >= min_height {
        side
    } else {
        min_height
    })
}

/// The full-screen toggle: leaving restores the remembered styles and
/// placement; entering first remembers the current ones, then, if the monitor
/// is known, strips the frame and covers the monitor.
pub open spec fn spec_toggle_full_screen(
    w: WindowStyle,
    current: WindowSnapshot,
    monitor: Option<Rect>,
) -> (WindowStyle, FullScreenStep) {
    if w.full_screen {
        (
            WindowStyle { full_screen: false, ..w },
            FullScreenStep::Restore {
                style: w.style,
                ex_style: w.ex_style,
                topmost: w.ex_style & WS_EX_TOPMOST == WS_EX_TOPMOST,
            },
        )
    } else {
        let saved = WindowStyle {
            full_screen: false,
            pos: (current.rect.left, current.rect.top),
            size: (current.rect.spec_width() as i32, current.rect.spec_height() as i32),
            style: current.style,
            ex_style: current.ex_style,
        };
        match monitor {
            None => (saved, FullScreenStep::MonitorUnavailable),
            Some(m) => (
                WindowStyle { full_screen: true, ..saved },
                FullScreenStep::Enter {
                    style: current.style & !FULL_SCREEN_REMOVED_STYLE,
                    ex_style: current.ex_style & !FULL_SCREEN_REMOVED_EX_STYLE,
                    x: m.left,
                    y: m.top,
                    width: m.spec_width() as i32,
                    height: m.spec_height() as i32,
                },
            ),
        }
    }
}

/// Where always-on-top toggling puts a window whose extended style is
/// `ex_style`: off the top when it is topmost, on top otherwise.
pub open spec fn spec_topmost_target(ex_style: i32) -> ZOrder {
    if ex_style & WS_EX_TOPMOST == WS_EX_TOPMOST {
        ZOrder::NotTopmost
    } else {
        ZOrder::Topmost
    }
}

impl WindowStyle {
    /// The state flags of the window; `minimized`, `maximized` and `active`
    /// are read from the window, full screen from this record.
    pub fn get_window_state(self, minimized: bool, maximized: bool, active: bool) -> (s: u32)
        ensures
            s == spec_window_state(minimized, maximized, self.full_screen, active),
    {
        let mut state: u32 = 0;
        if minimized {
            state = state + STATE_MINIMIZED;
        }
        if maximized {
            state = state + STATE_MAXIMIZED;
        }
        if active {
            state = state + STATE_ACTIVE;
        }
        if self.full_screen {
            state = state + STATE_FULL_SCREEN;
        }
        state
    }

    /// Centres the window on a monitor of the given size.
    pub fn center_window(&mut self, monitor_w: i32, monitor_h: i32, min_width: i32, min_height: i32)
        requires
            center_fits(monitor_w as int, monitor_h as int, min_width as int, min_height as int),
        ensures
            final(self).size.0 == spec_center_size(
                monitor_w as int,
                monitor_h as int,
                min_width as int,
                min_height as int,
            ).0,
            final(self).size.1 == spec_center_size(
                monitor_w as int,
                monitor_h as int,
                min_width as int,
                min_height as int,
            ).1,
            final(self).pos == (
                trunc_div(monitor_w - final(self).size.0, 2) as i32,
                trunc_div(monitor_h - final(self).size.1, 2) as i32,
            ),
            final(self).size.0 >= min_width,
            final(self).size.1 >= min_height,
            ({
                // 70% of the monitor's shorter side as the height, and the 16:9
                // width of that height, each raised to its minimum.
                let shorter = if monitor_w <= monitor_h {
                    monitor_w as int
                } else {
                    monitor_h as int
                };
                let height = trunc_div(shorter * 70, 100);
                let width = trunc_div(height * 16, 9);
                &&& final(self).size.1 == (if height >= min_height {
                    height
                } else {
                    min_height as int
                })
                &&& final(self).size.0 == (if width >= min_width {
                    width
                } else {
                    min_width as int
                })
            }),
            final(self).full_screen == old(self).full_screen,
            final(self).style == old(self).style,
            final(self).ex_style == old(self).ex_style,
    {
        let small = if monitor_w <= monitor_h {
            monitor_w
        } else {
            monitor_h
        };
        let side = small * 70 / 100;
        let wide = side * 16 / 9;
        let width = if wide >= min_width {
            wide
        } else {
            min_width
        };
        let height = if side >= min_height {
            side
        } else {
            min_height
        };
        self.size = (width, height);
        self.pos = ((monitor_w - width) / 2, (monitor_h - height) / 2);
    }

    /// Toggles full screen. `current` is the window's rectangle and styles
    /// right now and `monitor` the rectangle of its monitor, if it could be
    /// read; both matter only when entering full screen.
    pub fn toggle_full_screen(&mut self, current: WindowSnapshot, monitor: Option<Rect>) -> (step:
        FullScreenStep)
        requires
            extent_fits(current.rect),
            monitor matches Some(m) ==> extent_fits(m),
        ensures
            (*final(self), step) == spec_toggle_full_screen(*old(self), current, monitor),
            old(self).full_screen ==> {
                &&& step == FullScreenStep::Restore {
                    style: old(self).style,
                    ex_style: old(self).ex_style,
                    topmost: old(self).ex_style & WS_EX_TOPMOST == WS_EX_TOPMOST,
                }
                &&& !final(self).full_screen
                &&& final(self).pos == old(self).pos
                &&& final(self).size == old(self).size
                &&& final(self).style == old(self).style
                &&& final(self).ex_style == old(self).ex_style
            },
            !old(self).full_screen ==> {
                &&& final(self).pos == (current.rect.left, current.rect.top)
                &&& final(self).pos.0 + final(self).size.0 == current.rect.right
                &&& final(self).pos.1 + final(self).size.1 == current.rect.bottom
                &&& final(self).style == current.style
                &&& final(self).ex_style == current.ex_style
                &&& final(self).full_screen == monitor is Some
            },
            !old(self).full_screen && monitor is None ==> step == FullScreenStep::MonitorUnavailable,
            !old(self).full_screen ==> (monitor matches Some(m) ==> {
                // The window exactly covers the monitor, wherever it is on the
                // virtual screen.
                &&& step is Enter
                &&& step->Enter_style == current.style & !(WS_CAPTION | WS_THICKFRAME)
                &&& step->Enter_ex_style == current.ex_style & !(WS_EX_DLGMODALFRAME
                    | WS_EX_WINDOWEDGE | WS_EX_CLIENTEDGE | WS_EX_STATICEDGE)
                &&& step->x == m.left
                &&& step->y == m.top
                &&& step->x + step->width == m.right
                &&& step->y + step->height == m.bottom
            }),
    {
        if self.full_screen {
            let topmost = self.ex_style & WS_EX_TOPMOST == WS_EX_TOPMOST;
            self.full_screen = false;
            FullScreenStep::Restore { style: self.style, ex_style: self.ex_style, topmost }
        } else {
            self.pos = (current.rect.left, current.rect.top);
            self.size = (current.rect.width(), current.rect.height());
            self.style = current.style;
            self.ex_style = current.ex_style;
            match monitor {
                None => FullScreenStep::MonitorUnavailable,
                Some(m) => {
                    self.full_screen = true;
                    FullScreenStep::Enter {
                        style: current.style & !FULL_SCREEN_REMOVED_STYLE,
                        ex_style: current.ex_style & !FULL_SCREEN_REMOVED_EX_STYLE,
                        x: m.left,
                        y: m.top,
                        width: m.width(),
                        height: m.height(),
                    }
                },
            }
        }
    }

    /// Where to put the window to toggle always-on-top, given its current
    /// extended style: off the top when it is topmost, on top otherwise.
    pub fn toggle_topmost(&self, current_ex_style: i32) -> (z: ZOrder)
        ensures
            z == spec_topmost_target(current_ex_style),
    {
        if current_ex_style & WS_EX_TOPMOST == WS_EX_TOPMOST {
            ZOrder::NotTopmost
        } else {
            ZOrder::Topmost
        }
    }

    /// Takes position and size from the saved geometry, if there is one.
    /// Returns whether anything was restored.
    pub fn restore_window_state(&mut self, saved: Option<SavedWindowGeometry>) -> (restored: bool)
        ensures
            restored == saved is Some,
            match saved {
                Some(g) => final(self).pos == (g.x, g.y) && final(self).size == (g.width, g.height),
                None => final(self).pos == old(self).pos && final(self).size == old(self).size,
            },
            final(self).full_screen == old(self).full_screen,
            final(self).style == old(self).style,
            final(self).ex_style == old(self).ex_style,
    {
        match saved {
            Some(g) => {
                self.pos = (g.x, g.y);
                self.size = (g.width, g.height);
                true
            },
            None => false,
        }
    }
}

impl SavedWindowGeometry {
    /// The geometry to save for a window whose restored ("normal") rectangle
    /// is `normal`.
    pub fn from_normal_rect(normal: &Rect, maximized: bool) -> (g: Self)
        requires
            extent_fits(*normal),
        ensures
            g == (SavedWindowGeometry {
                x: normal.left,
                y: normal.top,
                width: normal.spec_width() as i32,
                height: normal.spec_height() as i32,
                maximized,
            }),
    {
        SavedWindowGeometry {
            x: normal.left,
            y: normal.top,
            width: normal.width(),
            height: normal.height(),
            maximized,
        }
    }
}

/// Each state flag is set exactly when its condition holds.
pub proof fn lemma_window_state_flags(
    minimized: bool,
    maximized: bool,
    full_screen: bool,
    active: bool,
)
    ensures
        (spec_window_state(minimized, maximized, full_screen, active) & 0x01 != 0) == minimized,
        (spec_window_state(minimized, maximized, full_screen, active) & 0x02 != 0) == maximized,
        (spec_window_state(minimized, maximized, full_screen, active) & 0x04 != 0)
            == full_screen,
        (spec_window_state(minimized, maximized, full_screen, active) & 0x08 != 0) == active,
        spec_window_state(minimized, maximized, full_screen, active) < 16,
{
    let s = spec_window_state(minimized, maximized, full_screen, active);
    let a: u32 = if minimized { 1 } else { 0 };
    let b: u32 = if maximized { 2 } else { 0 };
    let c: u32 = if full_screen { 4 } else { 0 };
    let d: u32 = if active { 8 } else { 0 };
    assert(s == a + b + c + d);
    let t: u32 = (a + b + c + d) as u32;
    assert(t == s);
    assert((a == 0 || a == 1) && (b == 0 || b == 2) && (c == 0 || c == 4) && (d == 0 || d == 8)
        && t == a + b + c + d ==> ((t & 1 != 0) == (a == 1) && (t & 2 != 0) == (b == 2) && (t & 4
        != 0) == (c == 4) && (t & 8 != 0) == (d == 8))) by (bit_vector);
}

/// Toggling always-on-top twice comes back to where it started: once the
/// window's topmost bit reflects the first toggle (set after `Topmost`,
/// cleared after `NotTopmost`), the second toggle chooses the opposite
/// position; every other style bit is left as it was.
pub proof fn lemma_topmost_toggle_alternates(ex_style: i32)
    ensures
        spec_topmost_target(ex_style) == ZOrder::Topmost ==> spec_topmost_target(
            ex_style | 0x0000_0008i32,
        ) == ZOrder::NotTopmost,
        spec_topmost_target(ex_style) == ZOrder::NotTopmost ==> spec_topmost_target(
            ex_style & !0x0000_0008i32,
        ) == ZOrder::Topmost,
        (ex_style | 0x0000_0008i32) & !0x0000_0008i32 == ex_style & !0x0000_0008i32,
{
    assert((ex_style | 0x0000_0008i32) & 0x0000_0008i32 == 0x0000_0008i32) by (bit_vector);
    assert((ex_style & !0x0000_0008i32) & 0x0000_0008i32 != 0x0000_0008i32) by (bit_vector);
    assert((ex_style | 0x0000_0008i32) & !0x0000_0008i32 == ex_style & !0x0000_0008i32)
        by (bit_vector);
}

/// Before the minimums apply, the centred window is 16:9: its width is the
/// 16:9 width of its height, and its height 70% of the monitor's shorter side,
/// on every monitor shape.
pub proof fn lemma_center_size_is_16_9(monitor_w: int, monitor_h: int, min_width: int, min_height: int)
    requires
        trunc_div((if monitor_w <= monitor_h { monitor_w } else { monitor_h }) * 70, 100)
            >= min_height,
        trunc_div(
            trunc_div((if monitor_w <= monitor_h { monitor_w } else { monitor_h }) * 70, 100) * 16,
            9,
        ) >= min_width,
    ensures
        spec_center_size(monitor_w, monitor_h, min_width, min_height).1 == trunc_div(
            (if monitor_w <= monitor_h { monitor_w } else { monitor_h }) * 70,
            100,
        ),
        spec_center_size(monitor_w, monitor_h, min_width, min_height).0 == trunc_div(
            spec_center_size(monitor_w, monitor_h, min_width, min_height).1 * 16,
            9,
        ),
{
}

/// Entering full screen on any monitor rectangle `m` covers exactly `m`.
pub proof fn lemma_full_screen_covers_monitor(w: WindowStyle, current: WindowSnapshot, m: Rect)
    requires
        !w.full_screen,
        extent_fits(m),
    ensures
        ({
            let (w1, s1) = spec_toggle_full_screen(w, current, Some(m));
            &&& w1.full_screen
            &&& s1 matches FullScreenStep::Enter { x, y, width, height, .. } && x == m.left && y
                == m.top && x + width == m.right && y + height == m.bottom
        }),
{
}

/// Entering full screen and leaving it again gives back the styles and the
/// placement the window had before, and leaves it windowed.
pub proof fn lemma_full_screen_round_trip(
    w: WindowStyle,
    before: WindowSnapshot,
    monitor: Rect,
    later: WindowSnapshot,
    later_monitor: Option<Rect>,
)
    requires
        !w.full_screen,
        extent_fits(before.rect),
    ensures
        ({
            let (w1, s1) = spec_toggle_full_screen(w, before, Some(monitor));
            let (w2, s2) = spec_toggle_full_screen(w1, later, later_monitor);
            &&& w1.full_screen
            &&& s1 is Enter
            &&& !w2.full_screen
            &&& s2 == FullScreenStep::Restore {
                style: before.style,
                ex_style: before.ex_style,
                topmost: before.ex_style & WS_EX_TOPMOST == WS_EX_TOPMOST,
            }
            &&& w2.pos == (before.rect.left, before.rect.top)
            &&& w2.size == (before.rect.spec_width() as i32, before.rect.spec_height() as i32)
        }),
{
}

} // verus!
