use stremio_border_breaker::player::{observed_props, prop_change_target, str_equal, ObservedProp};

#[test]
fn observed_properties_in_request_order() {
    let names: Vec<&str> = observed_props().iter().map(|p| p.name()).collect();
    assert_eq!(names, vec!["time-pos", "duration", "pause"]);
}

#[test]
fn prop_change_events_route_to_properties() {
    assert_eq!(prop_change_target("mpv-prop-change", "time-pos"), Some(ObservedProp::TimePos));
    assert_eq!(prop_change_target("mpv-prop-change", "duration"), Some(ObservedProp::Duration));
    assert_eq!(prop_change_target("mpv-prop-change", "pause"), Some(ObservedProp::Pause));
    assert_eq!(prop_change_target("mpv-prop-change", "volume"), None);
    assert_eq!(prop_change_target("mpv-prop-change", ""), None);
    assert_eq!(prop_change_target("mpv-event-ended", "pause"), None);
    assert_eq!(prop_change_target("", "time-pos"), None);
}

#[test]
fn string_equality() {
    assert!(str_equal("", ""));
    assert!(str_equal("pause", "pause"));
    assert!(!str_equal("pause", "pausE"));
    assert!(!str_equal("pause", "paus"));
    assert!(str_equal("é\u{1F3AC}", "é\u{1F3AC}"));
}
