use stremio_border_breaker::aspect::{AspectController, AspectMode, AspectValue, PropUpdate};

const ALL_MODES: [AspectMode; 9] = [
    AspectMode::AutoDetect,
    AspectMode::FillCrop,
    AspectMode::FitToScreen,
    AspectMode::Ratio16x9,
    AspectMode::Ratio4x3,
    AspectMode::Ratio1x1,
    AspectMode::Ratio21x9,
    AspectMode::Ratio32x9,
    AspectMode::Cinema,
];

#[test]
fn overlay_labels_match_modes() {
    let ratio = 21.0f32 / 9.0;
    let ratio_text = format!("{:.2}", ratio.max(0.01));
    assert_eq!(
        AspectMode::AutoDetect.overlay_label(&ratio_text),
        format!("Auto ({:.2}:1)", ratio)
    );
    assert_eq!(AspectMode::Ratio21x9.overlay_label(&ratio_text), "21:9 Ultrawide");
    assert_eq!(AspectMode::Cinema.overlay_label(&ratio_text), "Cinema");
}

#[test]
fn display_names_of_every_mode() {
    let names: Vec<&str> = ALL_MODES.iter().map(|m| m.display_name()).collect();
    assert_eq!(
        names,
        vec![
            "Auto",
            "Fill (Crop)",
            "Fit to Screen",
            "16:9",
            "4:3",
            "1:1",
            "21:9 Ultrawide",
            "32:9 Super Ultrawide",
            "Cinema"
        ]
    );
}

#[test]
fn overlay_label_of_non_auto_modes_is_the_name() {
    for m in ALL_MODES.iter().skip(1) {
        assert_eq!(m.overlay_label("9.99"), m.display_name());
    }
    assert_eq!(AspectMode::AutoDetect.overlay_label("1.78"), "Auto (1.78:1)");
}

#[test]
fn new_controller_starts_at_auto() {
    let c = AspectController::new(None);
    assert_eq!(c.current_mode(), AspectMode::AutoDetect);
}

#[test]
fn cycles_through_all_modes_and_wraps() {
    let mut c = AspectController::new(None);
    for expected in ALL_MODES.iter().skip(1) {
        assert_eq!(c.cycle(), *expected);
        assert_eq!(c.current_mode(), *expected);
    }
    assert_eq!(c.cycle(), AspectMode::AutoDetect);
}

#[test]
fn full_cycle_returns_to_start() {
    for start in ALL_MODES.iter() {
        let mut c = AspectController::new(Some(*start));
        for _ in 0..9 {
            c.cycle();
        }
        assert_eq!(c.current_mode(), *start);
    }
}

#[test]
fn cycle_then_restore_from_saved_mode() {
    let mut controller = AspectController::new(None);
    assert_eq!(controller.current_mode(), AspectMode::AutoDetect);
    controller.cycle();
    assert_eq!(controller.current_mode(), AspectMode::FillCrop);
    controller.cycle();
    assert_eq!(controller.current_mode(), AspectMode::FitToScreen);
    let saved = controller.current_mode();
    let loaded = AspectController::new(Some(saved));
    assert_eq!(loaded.current_mode(), AspectMode::FitToScreen);
}

#[test]
fn every_saved_mode_is_restored() {
    for m in ALL_MODES.iter() {
        assert_eq!(AspectController::new(Some(*m)).current_mode(), *m);
    }
}

#[test]
fn mode_specs() {
    let auto = AspectMode::AutoDetect.spec();
    assert_eq!(auto.aspect_override, Some(AspectValue::DisplayRatio));
    assert!(auto.keep_aspect);
    assert_eq!(auto.panscan, 0);
    assert_eq!(auto.video_unscaled, Some("no"));

    let fill = AspectMode::FillCrop.spec();
    assert_eq!(fill.aspect_override, None);
    assert_eq!(fill.panscan, 1);

    let fit = AspectMode::FitToScreen.spec();
    assert_eq!(fit.aspect_override, None);
    assert_eq!(fit.panscan, 0);

    let fractions = [
        (AspectMode::Ratio16x9, 16, 9),
        (AspectMode::Ratio4x3, 4, 3),
        (AspectMode::Ratio1x1, 1, 1),
        (AspectMode::Ratio21x9, 21, 9),
        (AspectMode::Ratio32x9, 32, 9),
        (AspectMode::Cinema, 239, 100),
    ];
    for (mode, num, den) in fractions.iter() {
        let s = mode.spec();
        assert_eq!(s.aspect_override, Some(AspectValue::Fraction { num: *num, den: *den }));
        assert!(s.keep_aspect);
        assert_eq!(s.panscan, 0);
        assert_eq!(s.video_unscaled, Some("no"));
    }
}

fn describe(u: &PropUpdate) -> String {
    match u {
        PropUpdate::VideoAspectOverride(v) => format!("aspect {:?}", v),
        PropUpdate::Keepaspect(b) => format!("keep {}", b),
        PropUpdate::Panscan(p) => format!("panscan {}", p),
        PropUpdate::VideoUnscaled(s) => format!("unscaled {}", s),
    }
}

#[test]
fn apply_mode_sends_four_updates_in_order() {
    let c = AspectController::new(None);
    let u: Vec<String> = c.apply_mode(AspectMode::FillCrop).iter().map(describe).collect();
    assert_eq!(u, vec!["aspect None", "keep true", "panscan 1", "unscaled no"]);
    let u: Vec<String> = c.apply_mode(AspectMode::Cinema).iter().map(describe).collect();
    assert_eq!(
        u,
        vec![
            "aspect Some(Fraction { num: 239, den: 100 })",
            "keep true",
            "panscan 0",
            "unscaled no"
        ]
    );
}

#[test]
fn apply_current_follows_the_cycle() {
    let mut c = AspectController::new(None);
    let first: Vec<String> = c.apply_current().iter().map(describe).collect();
    assert_eq!(first[0], "aspect Some(DisplayRatio)");
    c.cycle();
    let second: Vec<String> = c.apply_current().iter().map(describe).collect();
    assert_eq!(second[0], "aspect None");
    assert_eq!(second[2], "panscan 1");
}
