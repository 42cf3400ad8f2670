//! The player properties the picture-in-picture controls observe, and how
//! property-change events from the player are routed to them.
use vstd::prelude::*;

verus! {

/// A player property that the picture-in-picture controls track.
#[derive(Clone, Copy, Debug, PartialEq, Eq, Structural)]
pub enum ObservedProp {
    TimePos,
    Duration,
    Pause,
}

/// The player's name for each observed property.
pub open spec fn spec_prop_name(p: ObservedProp) -> Seq<char> {
    match p {
        ObservedProp::TimePos => "time-pos"@,
        ObservedProp::Duration => "duration"@,
        ObservedProp::Pause => "pause"@,
    }
}

/// Name of the event the player sends when an observed property changes.
pub open spec fn prop_change_event() -> Seq<char> {
    "mpv-prop-change"@
}

/// The property a change event is about: `None` for any other event kind or
/// for a property that is not observed.
pub open spec fn spec_prop_change_target(event_kind: Seq<char>, prop_name: Seq<char>) -> Option<
    ObservedProp,
> {
    if event_kind != prop_change_event() {
        None
    } else if prop_name == spec_prop_name(ObservedProp::TimePos) {
        Some(ObservedProp::TimePos)
    } else if prop_name == spec_prop_name(ObservedProp::Duration) {
        Some(ObservedProp::Duration)
    } else if prop_name == spec_prop_name(ObservedProp::Pause) {
        Some(ObservedProp::Pause)
    } else {
        None
    }
}

/// Character-by-character string equality.
pub fn str_equal(a: &str, b: &str) -> (r: bool)
    ensures
        r == (a@ == b@),
{
    let n = a.unicode_len();
    let m = b.unicode_len();
    if n != m {
        return false;
    }
    let mut i: usize = 0;
    while i < n
        invariant
            n == a@.len(),
            m == b@.len(),
            n == m,
            i <= n,
            forall|j: int| 0 <= j < i ==> a@[j] == b@[j],
        decreases n - i,
    {
        if a.get_char(i) != b.get_char(i) {
            return false;
        }
        i = i + 1;
    }
    assert(a@ =~= b@);
    true
}

impl ObservedProp {
    /// The player's name for this property.
    pub fn name(self) -> (s: &'static str)
        ensures
            s@ == spec_prop_name(self),
    {
        match self {
            ObservedProp::TimePos => "time-pos",
            ObservedProp::Duration => "duration",
            ObservedProp::Pause => "pause",
        }
    }
}

/// The properties to observe once the picture-in-picture window is built, in
/// the order the observe requests are sent: position, duration, pause state.
pub fn observed_props() -> (v: Vec<ObservedProp>)
    ensures
        v@ == seq![ObservedProp::TimePos, ObservedProp::Duration, ObservedProp::Pause],
{
    let mut v: Vec<ObservedProp> = Vec::new();
    v.push(ObservedProp::TimePos);
    v.push(ObservedProp::Duration);
    v.push(ObservedProp::Pause);
    assert(v@ =~= seq![ObservedProp::TimePos, ObservedProp::Duration, ObservedProp::Pause]);
    v
}

/// Routes a player event: `event_kind` is the first element of its argument
/// list and `prop_name` the `name` of its payload.
pub fn prop_change_target(event_kind: &str, prop_name: &str) -> (t: Option<ObservedProp>)
    ensures
        t == spec_prop_change_target(event_kind@, prop_name@),
{
    if !str_equal(event_kind, "mpv-prop-change") {
        return None;
    }
    if str_equal(prop_name, ObservedProp::TimePos.name()) {
        Some(ObservedProp::TimePos)
    } else if str_equal(prop_name, ObservedProp::Duration.name()) {
        Some(ObservedProp::Duration)
    } else if str_equal(prop_name, ObservedProp::Pause.name()) {
        Some(ObservedProp::Pause)
    } else {
        None
    }
}

/// Every observed property is routed back to itself by a change event that
/// carries its name.
pub proof fn lemma_observed_names_round_trip(p: ObservedProp)
    ensures
        spec_prop_change_target(prop_change_event(), spec_prop_name(p)) == Some(p),
{
    reveal_strlit("time-pos");
    reveal_strlit("duration");
    reveal_strlit("pause");
    assert("time-pos"@[0] != "duration"@[0]);
    assert("time-pos"@.len() != "pause"@.len());
    assert("duration"@.len() != "pause"@.len());
}

} // verus!
