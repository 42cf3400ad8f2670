//! Aspect-ratio modes of the video player: their names, the player
//! properties each mode sets, and the controller that cycles through them.
use vstd::prelude::*;

verus! {

/// How the video is fitted into the window.
#[derive(Clone, Copy, Debug, PartialEq, Eq, Structural)]
pub enum AspectMode {
    AutoDetect,
    FillCrop,
    FitToScreen,
    Ratio16x9,
    Ratio4x3,
    Ratio1x1,
    Ratio21x9,
    Ratio32x9,
    Cinema,
}

/// The name shown for each mode.
pub open spec fn spec_display_name(m: AspectMode) -> Seq<char> {
    match m {
        AspectMode::AutoDetect => "Auto"@,
        AspectMode::FillCrop => "Fill (Crop)"@,
        AspectMode::FitToScreen => "Fit to Screen"@,
        AspectMode::Ratio16x9 => "16:9"@,
        AspectMode::Ratio4x3 => "4:3"@,
        AspectMode::Ratio1x1 => "1:1"@,
        AspectMode::Ratio21x9 => "21:9 Ultrawide"@,
        AspectMode::Ratio32x9 => "32:9 Super Ultrawide"@,
        AspectMode::Cinema => "Cinema"@,
    }
}

/// The label of the on-screen indicator: the automatic mode shows the display
/// ratio (`ratio_text`, already formatted) as "Auto (<ratio>:1)", every other
/// mode its name.
pub open spec fn spec_overlay_label(m: AspectMode, ratio_text: Seq<char>) -> Seq<char> {
    if m == AspectMode::AutoDetect {
        "Auto ("@ + ratio_text + ":1)"@
    } else {
        spec_display_name(m)
    }
}

/// The aspect ratio a mode forces on the video.
#[derive(Clone, Copy, Debug, PartialEq, Eq, Structural)]
pub enum AspectValue {
    /// The display's own ratio, but never below 0.1.
    DisplayRatio,
    /// The ratio `num / den`.
    Fraction { num: u32, den: u32 },
}

/// The player properties a mode sets.
pub struct AspectSpec {
    /// Forced aspect ratio; `None` lets the video keep its own.
    pub aspect_override: Option<AspectValue>,
    pub keep_aspect: bool,
    /// Pan-and-scan amount: 0 shows the whole picture, 1 fills the window by cropping.
    pub panscan: u32,
    /// Value of the player's `video-unscaled` property, if it is set.
    pub video_unscaled: Option<&'static str>,
}

/// The forced aspect ratio of each mode.
pub open spec fn spec_aspect_override(m: AspectMode) -> Option<AspectValue> {
    match m {
        AspectMode::AutoDetect => Some(AspectValue::DisplayRatio),
        AspectMode::FillCrop | AspectMode::FitToScreen => None,
        AspectMode::Ratio16x9 => Some(AspectValue::Fraction { num: 16, den: 9 }),
        AspectMode::Ratio4x3 => Some(AspectValue::Fraction { num: 4, den: 3 }),
        AspectMode::Ratio1x1 => Some(AspectValue::Fraction { num: 1, den: 1 }),
        AspectMode::Ratio21x9 => Some(AspectValue::Fraction { num: 21, den: 9 }),
        AspectMode::Ratio32x9 => Some(AspectValue::Fraction { num: 32, den: 9 }),
        AspectMode::Cinema => Some(AspectValue::Fraction { num: 239, den: 100 }),
    }
}

/// Pan-and-scan of each mode: only "Fill (Crop)" crops.
pub open spec fn spec_panscan(m: AspectMode) -> u32 {
    if m == AspectMode::FillCrop {
        1
    } else {
        0
    }
}

/// Whether `s` is exactly the property set of mode `m`: its forced ratio and
/// pan-and-scan, aspect kept, and `video-unscaled` set to "no".
pub open spec fn is_spec_of(s: AspectSpec, m: AspectMode) -> bool {
    &&& s.aspect_override == spec_aspect_override(m)
    &&& s.keep_aspect
    &&& s.panscan == spec_panscan(m)
    &&& s.video_unscaled matches Some(v) && v@ == "no"@
}

impl AspectSpec {
    /// A fixed ratio `num / den`, aspect kept, no pan-and-scan.
    fn ratio(num: u32, den: u32) -> (s: Self)
        ensures
            s.aspect_override == Some(AspectValue::Fraction { num, den }),
            s.keep_aspect,
            s.panscan == 0,
            s.video_unscaled matches Some(v) && v@ == "no"@,
    {
        AspectSpec {
            aspect_override: Some(AspectValue::Fraction { num, den }),
            keep_aspect: true,
            panscan: 0,
            video_unscaled: Some("no"),
        }
    }
}

impl AspectMode {
    /// The name shown for the mode.
    pub fn display_name(self) -> (s: &'static str)
        ensures
            s@ == spec_display_name(self),
    {
        match self {
            AspectMode::AutoDetect => "Auto",
            AspectMode::FillCrop => "Fill (Crop)",
            AspectMode::FitToScreen => "Fit to Screen",
            AspectMode::Ratio16x9 => "16:9",
            AspectMode::Ratio4x3 => "4:3",
            AspectMode::Ratio1x1 => "1:1",
            AspectMode::Ratio21x9 => "21:9 Ultrawide",
            AspectMode::Ratio32x9 => "32:9 Super Ultrawide",
            AspectMode::Cinema => "Cinema",
        }
    }

    /// The on-screen indicator label; `ratio_text` is the display ratio
    /// formatted with two decimals.
    pub fn overlay_label(self, ratio_text: &str) -> (s: String)
        ensures
            s@ == spec_overlay_label(self, ratio_text@),
    {
        match self {
            AspectMode::AutoDetect => {
                let mut label = String::from_str("Auto (");
                label.append(ratio_text);
                label.append(":1)");
                label
            },
            mode => String::from_str(mode.display_name()),
        }
    }

    /// The player properties this mode sets.
    pub fn spec(self) -> (s: AspectSpec)
        ensures
            is_spec_of(s, self),
    {
        match self {
            AspectMode::AutoDetect => AspectSpec {
                aspect_override: Some(AspectValue::DisplayRatio),
                keep_aspect: true,
                panscan: 0,
                video_unscaled: Some("no"),
            },
            AspectMode::FillCrop => AspectSpec {
                aspect_override: None,
                keep_aspect: true,
                panscan: 1,
                video_unscaled: Some("no"),
            },
            AspectMode::FitToScreen => AspectSpec {
                aspect_override: None,
                keep_aspect: true,
                panscan: 0,
                video_unscaled: Some("no"),
            },
            AspectMode::Ratio16x9 => AspectSpec::ratio(16, 9),
            AspectMode::Ratio4x3 => AspectSpec::ratio(4, 3),
            AspectMode::Ratio1x1 => AspectSpec::ratio(1, 1),
            AspectMode::Ratio21x9 => AspectSpec::ratio(21, 9),
            AspectMode::Ratio32x9 => AspectSpec::ratio(32, 9),
            AspectMode::Cinema => AspectSpec::ratio(239, 100),
        }
    }
}

/// One player property update.
pub enum PropUpdate {
    /// `video-aspect-override`; `None` is sent as 0, which clears the override.
    VideoAspectOverride(Option<AspectValue>),
    /// `keepaspect`.
    Keepaspect(bool),
    /// `panscan`.
    Panscan(u32),
    /// `video-unscaled`.
    VideoUnscaled(&'static str),
}

/// Whether `u` is exactly the update list for mode `m`, in sending order:
/// the aspect override, keep-aspect, pan-and-scan, then `video-unscaled`.
pub open spec fn is_updates_of(u: Seq<PropUpdate>, m: AspectMode) -> bool {
    &&& u.len() == 4
    &&& u[0] == PropUpdate::VideoAspectOverride(spec_aspect_override(m))
    &&& u[1] == PropUpdate::Keepaspect(true)
    &&& u[2] == PropUpdate::Panscan(spec_panscan(m))
    &&& u[3] matches PropUpdate::VideoUnscaled(v) && v@ == "no"@
}

/// The order in which the controller cycles through the modes.
pub open spec fn cycle_order() -> Seq<AspectMode> {
    seq![
        AspectMode::AutoDetect,
        AspectMode::FillCrop,
        AspectMode::FitToScreen,
        AspectMode::Ratio16x9,
        AspectMode::Ratio4x3,
        AspectMode::Ratio1x1,
        AspectMode::Ratio21x9,
        AspectMode::Ratio32x9,
        AspectMode::Cinema,
    ]
}

/// Number of modes in the cycle.
pub const MODE_COUNT: usize = 9;

/// Where each mode sits in the cycle.
pub open spec fn spec_position(m: AspectMode) -> nat {
    match m {
        AspectMode::AutoDetect => 0,
        AspectMode::FillCrop => 1,
        AspectMode::FitToScreen => 2,
        AspectMode::Ratio16x9 => 3,
        AspectMode::Ratio4x3 => 4,
        AspectMode::Ratio1x1 => 5,
        AspectMode::Ratio21x9 => 6,
        AspectMode::Ratio32x9 => 7,
        AspectMode::Cinema => 8,
    }
}

/// The position after `p` in the cycle, wrapping to the start.
pub open spec fn next_position(p: nat) -> nat {
    (p + 1) % (MODE_COUNT as nat)
}

/// The position reached from `p` after `n` cycle steps.
pub open spec fn positions_after(p: nat, n: nat) -> nat
    decreases n,
{
    if n == 0 {
        p
    } else {
        next_position(positions_after(p, (n - 1) as nat))
    }
}

/// The current aspect mode and the fixed order in which it cycles.
pub struct AspectController {
    order: Vec<AspectMode>,
    current_index: usize,
}

impl AspectController {
    #[verifier::type_invariant]
    spec fn well_formed(self) -> bool {
        &&& self.order@ == cycle_order()
        &&& self.current_index < MODE_COUNT
    }

    /// Position of the current mode in the cycle.
    pub closed spec fn position(self) -> nat {
        self.current_index as nat
    }

    /// The current mode.
    pub open spec fn mode(self) -> AspectMode {
        cycle_order()[self.position() as int]
    }

    /// A controller starting at the saved mode, or at "Auto" when none was saved.
    pub fn new(saved_mode: Option<AspectMode>) -> (c: Self)
        ensures
            c.position() == match saved_mode {
                Some(m) => spec_position(m),
                None => 0,
            },
            c.position() < MODE_COUNT,
    {
        let order = vec![
            AspectMode::AutoDetect,
            AspectMode::FillCrop,
            AspectMode::FitToScreen,
            AspectMode::Ratio16x9,
            AspectMode::Ratio4x3,
            AspectMode::Ratio1x1,
            AspectMode::Ratio21x9,
            AspectMode::Ratio32x9,
            AspectMode::Cinema,
        ];
        assert(order@ =~= cycle_order());
        let current_index = match saved_mode {
            Some(mode) => match position_in(&order, mode) {
                Some(i) => i,
                None => 0,
            },
            None => 0,
        };
        proof {
            if let Some(m) = saved_mode {
                lemma_position_in_order(m);
            }
        }
        AspectController { order, current_index }
    }

    /// The current mode.
    pub fn current_mode(&self) -> (m: AspectMode)
        ensures
            m == self.mode(),
            self.position() < MODE_COUNT,
    {
        proof {
            use_type_invariant(self);
        }
        self.order[self.current_index]
    }

    /// Moves to the next mode in the cycle, wrapping from "Cinema" back to
    /// "Auto", and returns it.
    pub fn cycle(&mut self) -> (m: AspectMode)
        ensures
            final(self).position() == next_position(old(self).position()),
            m == final(self).mode(),
    {
        proof {
            use_type_invariant(&*self);
        }
        self.current_index = (self.current_index + 1) % self.order.len();
        self.current_mode()
    }

    /// The property updates that switch the player to `mode`, in sending order.
    pub fn apply_mode(&self, mode: AspectMode) -> (u: Vec<PropUpdate>)
        ensures
            is_updates_of(u@, mode),
    {
        let spec = mode.spec();
        let mut updates: Vec<PropUpdate> = Vec::new();
        updates.push(PropUpdate::VideoAspectOverride(spec.aspect_override));
        updates.push(PropUpdate::Keepaspect(spec.keep_aspect));
        updates.push(PropUpdate::Panscan(spec.panscan));
        if let Some(value) = spec.video_unscaled {
            updates.push(PropUpdate::VideoUnscaled(value));
        }
        updates
    }

    /// The property updates for the current mode.
    pub fn apply_current(&self) -> (u: Vec<PropUpdate>)
        ensures
            is_updates_of(u@, self.mode()),
    {
        let mode = self.current_mode();
        self.apply_mode(mode)
    }
}

/// Index of the first occurrence of `mode` in `order`.
fn position_in(order: &Vec<AspectMode>, mode: AspectMode) -> (r: Option<usize>)
    ensures
        match r {
            Some(i) => i < order@.len() && order@[i as int] == mode && forall|j: int|
                0 <= j < i ==> order@[j] != mode,
            None => forall|j: int| 0 <= j < order@.len() ==> order@[j] != mode,
        },
{
    let mut i: usize = 0;
    while i < order.len()
        invariant
            i <= order@.len(),
            forall|j: int| 0 <= j < i ==> order@[j] != mode,
        decreases order@.len() - i,
    {
        if order[i] == mode {
            return Some(i);
        }
        i = i + 1;
    }
    None
}

/// Each mode sits exactly once in the cycle, at its position.
pub proof fn lemma_position_in_order(m: AspectMode)
    ensures
        spec_position(m) < MODE_COUNT,
        cycle_order()[spec_position(m) as int] == m,
        forall|j: int| 0 <= j < spec_position(m) ==> cycle_order()[j] != m,
{
}

/// A controller rebuilt from a saved mode starts at that mode, so the mode
/// that cycling stored is the one found again on the next start.
pub proof fn lemma_saved_mode_restored(m: AspectMode, c: AspectController)
    requires
        c.position() == spec_position(m),
    ensures
        c.mode() == m,
{
    lemma_position_in_order(m);
}

/// The mode at any position of the cycle maps back to that position: storing
/// the current mode and starting a controller from it resumes the cycle where
/// it was.
pub proof fn lemma_mode_position_round_trip(p: nat)
    requires
        p < MODE_COUNT,
    ensures
        spec_position(cycle_order()[p as int]) == p,
{
}

/// Cycling `MODE_COUNT` times from any mode comes back to it.
pub proof fn lemma_full_cycle_returns(p: nat)
    requires
        p < MODE_COUNT,
    ensures
        positions_after(p, MODE_COUNT as nat) == p,
{
    lemma_positions_after_mod(p, MODE_COUNT as nat);
    vstd::arithmetic::div_mod::lemma_mod_self_0(MODE_COUNT as int);
    vstd::arithmetic::div_mod::lemma_add_mod_noop(p as int, MODE_COUNT as int, MODE_COUNT as int);
    vstd::arithmetic::div_mod::lemma_small_mod(p, MODE_COUNT as nat);
}

/// `n` cycle steps from position `p` land on `(p + n) % MODE_COUNT`.
proof fn lemma_positions_after_mod(p: nat, n: nat)
    requires
        p < MODE_COUNT,
    ensures
        positions_after(p, n) == (p + n) % (MODE_COUNT as nat),
    decreases n,
{
    if n == 0 {
        vstd::arithmetic::div_mod::lemma_small_mod(p, MODE_COUNT as nat);
    } else {
        lemma_positions_after_mod(p, (n - 1) as nat);
        let a = (p + n - 1) as int;
        vstd::arithmetic::div_mod::lemma_add_mod_noop(a, 1, MODE_COUNT as int);
        vstd::arithmetic::div_mod::lemma_small_mod(1, MODE_COUNT as nat);
    }
}

/// Cycling visits every mode: from "Auto", mode `m` is reached after
/// `spec_position(m)` steps.
pub proof fn lemma_cycle_visits_every_mode(m: AspectMode)
    ensures
        cycle_order()[positions_after(0, spec_position(m)) as int] == m,
{
    lemma_positions_after_mod(0, spec_position(m));
    lemma_position_in_order(m);
    vstd::arithmetic::div_mod::lemma_small_mod(spec_position(m), MODE_COUNT as nat);
}

} // verus!
