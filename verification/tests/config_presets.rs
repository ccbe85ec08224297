use tank::config::{EffectKind, FontKind, MatrixConfig, Preset, RippleType, TextureKind, default_palette, ripple_shader_value};

#[test]
fn classic_is_the_default_look() {
    let classic = MatrixConfig::for_version("classic");
    let default = MatrixConfig::default();
    assert_eq!(classic, default);
    assert_eq!(classic.font, FontKind::MatrixCode);
    assert_eq!(classic.num_columns, 80);
    assert_eq!(classic.effect, EffectKind::Palette);
    assert_eq!(classic.glyph_sequence_length, 57);
    assert_eq!(classic.glyph_texture_grid_size, (8, 8));
    assert_eq!(classic.bloom_size, 400);
    assert_eq!(classic.bloom_strength, 700);
    assert_eq!(classic.palette, default_palette());
    assert!(!classic.skip_intro);
}

#[test]
fn version_aliases_select_the_same_look() {
    assert_eq!(MatrixConfig::for_version("2003"), MatrixConfig::for_version("classic"));
    assert_eq!(MatrixConfig::for_version("throwback"), MatrixConfig::for_version("operator"));
    assert_eq!(MatrixConfig::for_version("1999"), MatrixConfig::for_version("operator"));
    assert_eq!(MatrixConfig::for_version("updated"), MatrixConfig::for_version("resurrections"));
    assert_eq!(MatrixConfig::for_version("2021"), MatrixConfig::for_version("resurrections"));
}

#[test]
fn unknown_versions_fall_back_to_classic() {
    assert_eq!(MatrixConfig::for_version("no such version"), MatrixConfig::for_version("classic"));
    assert_eq!(MatrixConfig::for_version(""), MatrixConfig::for_version("classic"));
    assert_eq!(MatrixConfig::for_version("Classic"), MatrixConfig::for_version("classic"));
    assert_eq!(Preset::from_name("nowhere"), Preset::Classic);
}

#[test]
fn preset_names() {
    assert_eq!(Preset::from_name("megacity"), Preset::Megacity);
    assert_eq!(Preset::from_name("3d"), Preset::ThreeD);
    assert_eq!(Preset::from_name("holoplay"), Preset::Holoplay);
    assert_eq!(Preset::from_name("1999"), Preset::Operator);
    assert_eq!(MatrixConfig::for_preset(Preset::Nightmare), MatrixConfig::for_version("nightmare"));
}

#[test]
fn operator_look() {
    let c = MatrixConfig::for_version("operator");
    assert_eq!(c.num_columns, 108);
    assert_eq!(c.ripple_type, Some(RippleType::Box));
    assert_eq!(c.cycle_frame_skip, 8);
    assert_eq!(c.bloom_size, 600);
    assert_eq!(c.bloom_strength, 750);
    assert_eq!(c.glyph_height_to_width, 1350);
    assert_eq!(c.palette.len, 3);
    assert_eq!(c.font, FontKind::MatrixCode);
}

#[test]
fn nightmare_look() {
    let c = MatrixConfig::for_version("nightmare");
    assert_eq!(c.font, FontKind::Gothic);
    assert_eq!(c.glyph_sequence_length, 27);
    assert_eq!(c.num_columns, 60);
    assert!(c.has_thunder);
    assert!(!c.isolate_cursor);
    assert_eq!(c.slant, 22500);
    assert_eq!(c.palette.len, 5);
}

#[test]
fn resurrections_look_uses_its_font_and_glint() {
    let c = MatrixConfig::for_version("resurrections");
    assert_eq!(c.font, FontKind::Resurrections);
    assert_eq!(c.glyph_sequence_length, 135);
    assert_eq!(c.glyph_texture_grid_size, (13, 12));
    assert_eq!(c.num_columns, 70);
    let asset = c.font.asset();
    assert_eq!(asset.glint_msdf, Some(("resurrections_glint_msdf.png", "Resurrections Glint MSDF")));
}

#[test]
fn set_font_brings_glyph_count_and_atlas() {
    let mut c = MatrixConfig::default();
    c.set_font(FontKind::Neomatrixology);
    assert_eq!(c.font, FontKind::Neomatrixology);
    assert_eq!(c.glyph_sequence_length, 12);
    assert_eq!(c.glyph_texture_grid_size, (4, 4));
    assert_eq!(c.num_columns, 80);
}

#[test]
fn apply_resurrections_overrides() {
    let mut c = MatrixConfig::default();
    c.apply_resurrections();
    assert_eq!(c.font, FontKind::Resurrections);
    assert_eq!(c.num_columns, 70);
    assert_eq!(c.glyph_edge_crop, 100);
    assert_eq!(c.base_brightness, -700);
    assert_eq!(c.palette.len, 3);
    assert_eq!(c.palette.entries[1].at, 920);
}

#[test]
fn every_font_asset_matches_its_look() {
    let fonts = [
        FontKind::Coptic,
        FontKind::Gothic,
        FontKind::MatrixCode,
        FontKind::Megacity,
        FontKind::Resurrections,
        FontKind::HuberfishA,
        FontKind::HuberfishD,
        FontKind::GtargTenretniolleh,
        FontKind::GtargAlientext,
        FontKind::Neomatrixology,
    ];
    let lengths = [32, 27, 57, 64, 135, 34, 34, 36, 38, 12];
    for (font, length) in fonts.iter().zip(lengths.iter()) {
        assert_eq!(font.asset().glyph_sequence_length, *length);
    }
    assert_eq!(FontKind::Coptic.asset().glyph_msdf_file, "coptic_msdf.png");
    assert_eq!(FontKind::GtargAlientext.asset().glyph_texture_grid_size, (8, 5));
}

#[test]
fn textures_and_ripples() {
    assert_eq!(TextureKind::Sand.file_name(), "sand.png");
    assert_eq!(TextureKind::Pixels.file_name(), "pixel_grid.png");
    assert_eq!(TextureKind::Metal.label(), "Metal Texture");
    assert_eq!(TextureKind::Mesh.label(), "Mesh Texture");
    assert_eq!(RippleType::Box.shader_value(), 0);
    assert_eq!(RippleType::Circle.shader_value(), 1);
    assert_eq!(ripple_shader_value(None), -1);
}

#[test]
fn effect_cycling() {
    assert!(EffectKind::Off.is_none());
    assert!(!EffectKind::Mirror.is_none());
    assert_eq!(EffectKind::Mirror.next_visual(), EffectKind::Palette);
    assert_eq!(EffectKind::Palette.next_visual(), EffectKind::Mirror);
    assert_eq!(EffectKind::Plain.next_visual(), EffectKind::Mirror);
    assert_eq!(EffectKind::Off.next_visual(), EffectKind::Mirror);
}

#[test]
fn grid_size_follows_density_only_for_volumetric_effects() {
    let classic = MatrixConfig::for_version("classic");
    assert_eq!(classic.grid_size(), [80, 80]);
    assert_eq!(classic.effective_density(), 1000);
    let holoplay = MatrixConfig::for_version("holoplay");
    assert!(holoplay.volumetric);
    assert_eq!(holoplay.density, 3000);
    assert_eq!(holoplay.effective_density(), 3000);
    assert_eq!(holoplay.grid_size(), [60, 20]);
    let mut debug = holoplay;
    debug.effect = EffectKind::Off;
    assert_eq!(debug.effective_density(), 1000);
    assert_eq!(debug.grid_size(), [20, 20]);
}

#[test]
fn grid_size_rounds_down_and_saturates() {
    let mut c = MatrixConfig::for_version("3d");
    c.num_columns = 7;
    c.density = 1500;
    assert_eq!(c.grid_size(), [10, 7]);
    c.density = 0;
    assert_eq!(c.grid_size(), [0, 7]);
    c.density = -5;
    assert_eq!(c.grid_size(), [0, 7]);
    c.num_columns = u32::MAX;
    c.density = 2000;
    assert_eq!(c.grid_size(), [u32::MAX, u32::MAX]);
}

#[test]
fn bloom_without_size_has_no_strength() {
    for name in ["classic", "megacity", "neomatrixology", "operator", "nightmare", "paradise", "resurrections", "trinity", "morpheus", "bugs", "palimpsest", "twilight", "holoplay", "3d"] {
        let c = MatrixConfig::for_version(name);
        if c.bloom_size <= 0 {
            assert_eq!(c.bloom_strength, 0, "{}", name);
        }
        assert!(c.palette.len >= 1 && c.palette.len <= 5, "{}", name);
    }
}
