use tank::config::{EffectKind, MatrixConfig};
use tank::viewer::{KeyAction, KeyResponse, LogicalKey, PhysicalKey, State, key_action, viewer_version};

fn text(s: &str) -> LogicalKey {
    LogicalKey::Text(s.to_string())
}

#[test]
fn quit_keys() {
    assert_eq!(key_action(&LogicalKey::Escape, PhysicalKey::Other), KeyAction::Exit);
    assert_eq!(key_action(&text("q"), PhysicalKey::Other), KeyAction::Exit);
    assert_eq!(key_action(&text("Q"), PhysicalKey::Digit(3)), KeyAction::Exit);
    assert_eq!(key_action(&text("w"), PhysicalKey::Other), KeyAction::Nothing);
}

#[test]
fn physical_keys() {
    assert_eq!(key_action(&text("`"), PhysicalKey::Backquote), KeyAction::ToggleSkipIntro);
    assert_eq!(key_action(&text("7"), PhysicalKey::Digit(7)), KeyAction::SelectVersion(7));
    assert_eq!(key_action(&text("r"), PhysicalKey::KeyR), KeyAction::ReloadDefault);
    assert_eq!(key_action(&text("e"), PhysicalKey::KeyE), KeyAction::CycleEffect);
    assert_eq!(key_action(&text("d"), PhysicalKey::KeyD), KeyAction::ToggleDebugView);
    assert_eq!(key_action(&LogicalKey::Other, PhysicalKey::F3), KeyAction::ToggleDebugView);
    assert_eq!(key_action(&LogicalKey::Other, PhysicalKey::Digit(12)), KeyAction::Nothing);
}

#[test]
fn digits_pick_versions() {
    let expected = ["3d", "neomatrixology", "megacity", "operator", "resurrections", "paradise", "nightmare", "trinity", "morpheus", "bugs"];
    for (digit, name) in expected.iter().enumerate() {
        assert_eq!(viewer_version(digit as u8), Some(*name));
    }
    assert_eq!(viewer_version(10), None);
}

#[test]
fn viewer_starts_classic() {
    let state = State::new(0, 600);
    assert_eq!(state.config, MatrixConfig::for_version("classic"));
    assert_eq!(state.size, [1, 600]);
    assert_eq!(state.remembered_effect, EffectKind::Palette);
}

#[test]
fn resize_ignores_empty_sizes() {
    let mut state = State::new(800, 600);
    assert!(!state.resize(0, 600));
    assert_eq!(state.size, [800, 600]);
    assert!(state.resize(1024, 768));
    assert_eq!(state.size, [1024, 768]);
}

#[test]
fn versions_keep_intro_and_effect() {
    let mut state = State::new(800, 600);
    state.toggle_skip_intro();
    state.cycle_effect();
    assert_eq!(state.config.effect, EffectKind::Mirror);
    assert_eq!(state.key_pressed(&text("6"), PhysicalKey::Digit(6)), KeyResponse::Rebuild);
    let mut expected = MatrixConfig::for_version("nightmare");
    expected.skip_intro = true;
    expected.effect = EffectKind::Mirror;
    assert_eq!(state.config, expected);
    assert_eq!(state.key_pressed(&text("r"), PhysicalKey::KeyR), KeyResponse::Rebuild);
    let mut expected = MatrixConfig::for_version("classic");
    expected.skip_intro = true;
    expected.effect = EffectKind::Mirror;
    assert_eq!(state.config, expected);
}

#[test]
fn skip_intro_toggles_back() {
    let mut state = State::new(800, 600);
    let before = state.config;
    state.key_pressed(&text("`"), PhysicalKey::Backquote);
    assert!(state.config.skip_intro);
    state.key_pressed(&text("`"), PhysicalKey::Backquote);
    assert_eq!(state.config, before);
}

#[test]
fn debug_view_toggles_back() {
    let mut state = State::new(800, 600);
    state.set_version("operator");
    state.cycle_effect();
    let before = state.config;
    assert_eq!(state.key_pressed(&LogicalKey::Other, PhysicalKey::F3), KeyResponse::Rebuild);
    assert_eq!(state.config.effect, EffectKind::Off);
    assert_eq!(state.remembered_effect, EffectKind::Mirror);
    assert_eq!(state.key_pressed(&text("d"), PhysicalKey::KeyD), KeyResponse::Rebuild);
    assert_eq!(state.config, before);
}

#[test]
fn effects_cycle_between_mirror_and_palette() {
    let mut state = State::new(800, 600);
    state.key_pressed(&text("e"), PhysicalKey::KeyE);
    assert_eq!(state.config.effect, EffectKind::Mirror);
    state.key_pressed(&text("e"), PhysicalKey::KeyE);
    assert_eq!(state.config.effect, EffectKind::Palette);
    state.toggle_debug_view();
    state.cycle_effect();
    assert_eq!(state.config.effect, EffectKind::Mirror);
}

#[test]
fn quit_and_other_keys_change_nothing() {
    let mut state = State::new(800, 600);
    let before = state.config;
    assert_eq!(state.key_pressed(&LogicalKey::Escape, PhysicalKey::Other), KeyResponse::Exit);
    assert_eq!(state.key_pressed(&text("x"), PhysicalKey::Other), KeyResponse::Ignore);
    assert_eq!(state.config, before);
}
