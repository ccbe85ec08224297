use tank::config::{EffectKind, MatrixConfig};
use tank::settings::{SaverSettings, SaverState, decode_units, flag_dword, settings_from_store, stored_version, version_bytes, version_or_classic};

#[test]
fn settings_select_mirror_or_palette() {
    let mirror = SaverSettings::new("nightmare", true, false).config();
    let mut expected = MatrixConfig::for_version("nightmare");
    expected.effect = EffectKind::Mirror;
    assert_eq!(mirror, expected);
    let palette = SaverSettings::new("bugs", false, true).config();
    let mut expected = MatrixConfig::for_version("bugs");
    expected.effect = EffectKind::Palette;
    expected.skip_intro = true;
    assert_eq!(palette, expected);
}

#[test]
fn same_as_compares_all_three() {
    let a = SaverSettings::new("classic", false, false);
    assert!(a.same_as(&SaverSettings::new("classic", false, false)));
    assert!(!a.same_as(&SaverSettings::new("classic", true, false)));
    assert!(!a.same_as(&SaverSettings::new("classic", false, true)));
    assert!(!a.same_as(&SaverSettings::new("megacity", false, false)));
}

#[test]
fn saver_state_starts_with_a_surface() {
    let state = SaverState::new(0, 768, "operator", true, true);
    assert_eq!(state.size, [1, 768]);
    assert_eq!(state.settings.version, "operator");
    assert!(state.settings.mirror_enabled);
    let mut expected = MatrixConfig::for_version("operator");
    expected.effect = EffectKind::Mirror;
    expected.skip_intro = true;
    assert_eq!(state.config(), expected);
}

#[test]
fn applying_the_same_settings_does_nothing() {
    let mut state = SaverState::new(800, 600, "classic", false, false);
    assert_eq!(state.settings_change("classic", false, false), None);
    assert!(!state.apply_settings("classic", false, false, true));
    let mut expected = MatrixConfig::for_version("paradise");
    expected.effect = EffectKind::Mirror;
    assert_eq!(state.settings_change("paradise", true, false), Some(expected));
    assert!(state.apply_settings("paradise", true, false, true));
    assert_eq!(state.settings.version, "paradise");
    assert_eq!(state.settings_change("paradise", true, false), None);
    assert!(!state.apply_settings("paradise", true, false, true));
    assert!(state.settings_change("paradise", true, true).is_some());
    assert_eq!(state.size, [800, 600]);
}

#[test]
fn a_failed_build_keeps_the_old_settings() {
    let mut state = SaverState::new(800, 600, "classic", false, false);
    assert!(!state.apply_settings("nightmare", true, true, false));
    assert!(state.settings.same_as(&SaverSettings::new("classic", false, false)));
    assert!(state.settings_change("nightmare", true, true).is_some());
    assert!(state.apply_settings("nightmare", true, true, true));
    assert!(state.settings.same_as(&SaverSettings::new("nightmare", true, true)));
}

#[test]
fn resize_only_when_the_size_changes() {
    let mut state = SaverState::new(800, 600, "classic", false, false);
    assert!(!state.resize(800, 600));
    assert!(state.resize(1024, 0));
    assert_eq!(state.size, [1024, 1]);
    assert!(!state.resize(1024, 1));
    assert!(!state.resize(1024, 0));
}

#[test]
fn missing_version_is_classic() {
    assert_eq!(version_or_classic(None), "classic");
    assert_eq!(version_or_classic(Some("trinity")), "trinity");
    assert_eq!(stored_version(None), "classic");
    assert_eq!(stored_version(Some(&[])), "classic");
    assert_eq!(stored_version(Some(&[0, 0])), "classic");
}

#[test]
fn version_is_stored_as_nul_terminated_utf16() {
    assert_eq!(version_bytes("3d"), vec![b'3', 0, b'd', 0, 0, 0]);
    let expected: Vec<u8> = "résurrection😀"
        .encode_utf16()
        .chain(std::iter::once(0))
        .flat_map(|u| u.to_le_bytes())
        .collect();
    assert_eq!(version_bytes("résurrection😀"), expected);
}

#[test]
fn stored_version_round_trip() {
    for version in ["classic", "3d", "neomatrixology", "ünïcödé", "𝕞𝕒𝕥𝕣𝕚𝕩"] {
        assert_eq!(stored_version(Some(&version_bytes(version))), version);
    }
}

#[test]
fn stored_version_trims_nuls_and_ignores_an_odd_byte() {
    assert_eq!(stored_version(Some(&[b'b', 0, b'u', 0, 0, 0, 0, 0])), "bu");
    assert_eq!(stored_version(Some(&[b'o', 0, b'k', 0, 7])), "ok");
}

#[test]
fn lossy_decoding_replaces_lone_surrogates() {
    let units: Vec<u16> = vec![0x61, 0xD800, 0x62, 0xDC00, 0xD83D, 0xDE00];
    let chars = decode_units(&units);
    let expected: Vec<char> = String::from_utf16_lossy(&units).chars().collect();
    assert_eq!(chars, expected);
    assert_eq!(chars, vec!['a', '\u{FFFD}', 'b', '\u{FFFD}', '😀']);
}

#[test]
fn flags_and_settings_from_store() {
    assert_eq!(flag_dword(true), 1);
    assert_eq!(flag_dword(false), 0);
    let settings = settings_from_store(Some(&version_bytes("twilight")), 1, 0);
    assert_eq!(settings.version, "twilight");
    assert!(settings.mirror_enabled);
    assert!(!settings.skip_intro);
    let settings = settings_from_store(None, 0, 7);
    assert_eq!(settings.version, "classic");
    assert!(!settings.mirror_enabled);
    assert!(settings.skip_intro);
}

#[test]
fn saved_settings_load_back() {
    let saved = SaverSettings::new("holoplay", true, true);
    let loaded = settings_from_store(
        Some(&version_bytes(&saved.version)),
        flag_dword(saved.mirror_enabled),
        flag_dword(saved.skip_intro),
    );
    assert!(loaded.same_as(&saved));
}
