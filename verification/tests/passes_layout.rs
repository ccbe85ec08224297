use tank::bloom::{PYRAMID_HEIGHT, bloom_enabled, bloom_level_size, bloom_scaled_size, pyramid_sizes, workgroup_count};
use tank::config::{EffectKind, MatrixConfig};
use tank::pipeline::{EffectStage, NUM_TOUCHES, SurfaceFormatKind, TouchRing, effect_stage, preferred_format, takes_touches, target_extent};
use tank::rain::{RainCamera, rain_camera, rain_layout, rain_switches};

#[test]
fn bloom_levels_halve() {
    assert_eq!(bloom_level_size([800, 600], 0), [800, 600]);
    assert_eq!(bloom_level_size([800, 600], 1), [400, 300]);
    assert_eq!(bloom_level_size([800, 600], 3), [100, 75]);
    assert_eq!(bloom_level_size([3, 1], 2), [1, 1]);
    assert_eq!(bloom_level_size([0, 0], 0), [1, 1]);
    assert_eq!(bloom_level_size([u32::MAX, 5], 31), [1, 1]);
}

#[test]
fn pyramid_has_four_levels() {
    let sizes = pyramid_sizes([320, 200]);
    assert_eq!(PYRAMID_HEIGHT, 4);
    assert_eq!(sizes, vec![[320, 200], [160, 100], [80, 50], [40, 25]]);
    for (level, size) in sizes.iter().enumerate() {
        assert_eq!(*size, bloom_level_size([320, 200], level));
    }
}

#[test]
fn bloom_scaled_size_in_thousandths() {
    assert_eq!(bloom_scaled_size([1920, 1080], 400), [768, 432]);
    assert_eq!(bloom_scaled_size([1920, 1080], 600), [1152, 648]);
    assert_eq!(bloom_scaled_size([1, 1], 400), [1, 1]);
    assert_eq!(bloom_scaled_size([1000, 1000], 0), [1, 1]);
    assert_eq!(bloom_scaled_size([1000, 1000], -200), [1, 1]);
    assert_eq!(bloom_scaled_size([u32::MAX, 7], 2000), [u32::MAX, 14]);
}

#[test]
fn bloom_runs_only_with_size_and_strength() {
    assert!(bloom_enabled(400, 700));
    assert!(!bloom_enabled(0, 700));
    assert!(!bloom_enabled(400, 0));
    let holoplay = MatrixConfig::for_version("holoplay");
    assert!(!bloom_enabled(holoplay.bloom_size, holoplay.bloom_strength));
}

#[test]
fn workgroups_cover_rows_in_chunks_of_32() {
    assert_eq!(workgroup_count([64, 10]), [2, 10, 1]);
    assert_eq!(workgroup_count([65, 10]), [3, 10, 1]);
    assert_eq!(workgroup_count([1, 1]), [1, 1, 1]);
    assert_eq!(workgroup_count([0, 3]), [0, 3, 1]);
    assert_eq!(workgroup_count([u32::MAX, 2]), [134217728, 2, 1]);
}

#[test]
fn flat_rain_draws_one_quad() {
    let layout = rain_layout(&MatrixConfig::for_version("classic"));
    assert_eq!(layout.grid_size, [80, 80]);
    assert_eq!(layout.num_cells, 6400);
    assert_eq!(layout.num_quads, 1);
    assert_eq!(layout.vertex_count, 6);
    assert_eq!(layout.intro_cells_bytes, 80 * 16);
    assert_eq!(layout.cells_bytes, 6400 * 48);
    assert_eq!(layout.intro_workgroups, [3, 1, 1]);
    assert_eq!(layout.main_workgroups, [3, 80, 1]);
}

#[test]
fn volumetric_rain_draws_a_quad_per_cell() {
    let layout = rain_layout(&MatrixConfig::for_version("holoplay"));
    assert_eq!(layout.grid_size, [60, 20]);
    assert_eq!(layout.num_cells, 1200);
    assert_eq!(layout.num_quads, 1200);
    assert_eq!(layout.vertex_count, 7200);
    assert_eq!(layout.main_workgroups, [2, 20, 1]);
}

#[test]
fn rain_switches_of_presets() {
    let classic = rain_switches(&MatrixConfig::for_version("classic"));
    assert_eq!(classic.show_debug_view, 0);
    assert_eq!(classic.ripple_type, -1);
    assert_eq!(classic.has_thunder, 0);
    assert_eq!(classic.isolate_cursor, 1);
    assert_eq!(classic.density, 1000);
    assert_eq!(classic.grid_size, [80, 80]);
    assert_eq!(classic.glyph_sequence_length, 57);
    let nightmare = rain_switches(&MatrixConfig::for_version("nightmare"));
    assert_eq!(nightmare.has_thunder, 1);
    assert_eq!(nightmare.isolate_cursor, 0);
    let paradise = rain_switches(&MatrixConfig::for_version("paradise"));
    assert_eq!(paradise.ripple_type, 1);
    assert_eq!(paradise.is_polar, 1);
    let mut debug = MatrixConfig::for_version("holoplay");
    debug.effect = EffectKind::Off;
    debug.skip_intro = true;
    let switches = rain_switches(&debug);
    assert_eq!(switches.show_debug_view, 1);
    assert_eq!(switches.volumetric, 1);
    assert_eq!(switches.density, 1000);
    assert_eq!(switches.skip_intro, 1);
}

#[test]
fn camera_choice() {
    assert_eq!(rain_camera(true, true, [1920, 1080]), RainCamera::Isometric { wide: true });
    assert_eq!(rain_camera(true, true, [600, 800]), RainCamera::Isometric { wide: false });
    assert_eq!(rain_camera(true, true, [500, 500]), RainCamera::Isometric { wide: false });
    assert_eq!(rain_camera(true, false, [1920, 1080]), RainCamera::Perspective);
    assert_eq!(rain_camera(false, true, [1920, 1080]), RainCamera::Perspective);
}

#[test]
fn effect_stages() {
    assert_eq!(effect_stage(EffectKind::Off), EffectStage::Direct);
    assert_eq!(effect_stage(EffectKind::Plain), EffectStage::Palette);
    assert_eq!(effect_stage(EffectKind::Palette), EffectStage::Palette);
    assert_eq!(effect_stage(EffectKind::Mirror), EffectStage::Mirror);
    assert!(takes_touches(EffectStage::Mirror));
    assert!(!takes_touches(EffectStage::Palette));
    assert!(!takes_touches(EffectStage::Direct));
}

#[test]
fn render_targets_are_never_empty() {
    assert_eq!(target_extent([0, 0]), [1, 1]);
    assert_eq!(target_extent([640, 0]), [640, 1]);
    assert_eq!(target_extent([640, 480]), [640, 480]);
}

#[test]
fn touch_ring_keeps_the_latest_five() {
    let mut ring = TouchRing::new([0i32, 0, -1000, 0]);
    assert_eq!(NUM_TOUCHES, 5);
    assert_eq!(ring.touches(), [[0, 0, -1000, 0]; 5]);
    assert_eq!(ring.next_slot(), 0);
    for t in 1..=7 {
        ring.record([t, t, t, 0]);
    }
    assert_eq!(ring.next_slot(), 2);
    assert_eq!(
        ring.touches(),
        [[6, 6, 6, 0], [7, 7, 7, 0], [3, 3, 3, 0], [4, 4, 4, 0], [5, 5, 5, 0]]
    );
}

#[test]
fn touch_ring_wraps_after_five() {
    let mut ring = TouchRing::new(0u8);
    for t in 1..=5u8 {
        ring.record(t);
    }
    assert_eq!(ring.next_slot(), 0);
    assert_eq!(ring.touches(), [1, 2, 3, 4, 5]);
}

#[test]
fn surface_format_prefers_plain_eight_bit() {
    assert_eq!(preferred_format(&[SurfaceFormatKind::Other, SurfaceFormatKind::Bgra8Unorm, SurfaceFormatKind::Rgba8Unorm]), 1);
    assert_eq!(preferred_format(&[SurfaceFormatKind::Other, SurfaceFormatKind::Other, SurfaceFormatKind::Rgba8Unorm]), 2);
    assert_eq!(preferred_format(&[SurfaceFormatKind::Rgba8Unorm, SurfaceFormatKind::Bgra8Unorm]), 0);
    assert_eq!(preferred_format(&[SurfaceFormatKind::Other, SurfaceFormatKind::Other]), 0);
    assert_eq!(preferred_format(&[SurfaceFormatKind::Other]), 0);
}
