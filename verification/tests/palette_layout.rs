use tank::config::{MatrixConfig, PaletteSpec, default_palette, hsl_palette_entry};
use tank::palette::{GradientSample, PALETTE_SIZE, gradient_point_list, make_palette, palette_index, sort_stops};

fn sample(from: usize, to: usize, step: usize, span: usize) -> GradientSample {
    GradientSample { from, to, step, span }
}

#[test]
fn stop_positions_map_onto_512_slots() {
    assert_eq!(palette_index(0), 0);
    assert_eq!(palette_index(200), 102);
    assert_eq!(palette_index(700), 357);
    assert_eq!(palette_index(1000), 511);
    assert_eq!(palette_index(-300), 0);
    assert_eq!(palette_index(5000), 511);
}

#[test]
fn stops_are_sorted_stably_by_slot() {
    let entries = [
        hsl_palette_entry(0, 0, 0, 800),
        hsl_palette_entry(0, 0, 0, 100),
        hsl_palette_entry(0, 0, 0, 800),
        hsl_palette_entry(0, 0, 0, 0),
    ];
    assert_eq!(sort_stops(&entries), vec![(3, 0), (1, 51), (0, 408), (2, 408)]);
}

#[test]
fn gradient_points_pin_both_ends() {
    let entries = default_palette().entries();
    assert_eq!(
        gradient_point_list(&entries),
        vec![(0, 0), (0, 0), (1, 102), (2, 357), (3, 408), (3, 511)]
    );
}

#[test]
fn default_gradient_layout() {
    let entries = default_palette().entries();
    let samples = make_palette(&entries);
    assert_eq!(samples.len(), PALETTE_SIZE);
    assert_eq!(samples[0], sample(0, 1, 0, 102));
    assert_eq!(samples[50], sample(0, 1, 50, 102));
    assert_eq!(samples[101], sample(0, 1, 101, 102));
    assert_eq!(samples[102], sample(1, 2, 0, 255));
    assert_eq!(samples[200], sample(1, 2, 98, 255));
    assert_eq!(samples[357], sample(2, 3, 0, 51));
    assert_eq!(samples[407], sample(2, 3, 50, 51));
    assert_eq!(samples[408], sample(3, 3, 0, 103));
    assert_eq!(samples[511], sample(3, 3, 103, 103));
}

#[test]
fn single_stop_paints_everything() {
    let samples = make_palette(&[hsl_palette_entry(100, 200, 300, 500)]);
    assert_eq!(samples.len(), 512);
    for (slot, s) in samples.iter().enumerate() {
        assert_eq!(s.from, 0);
        assert_eq!(s.to, 0);
        assert!(s.step <= s.span);
        if slot < 255 {
            assert_eq!(*s, sample(0, 0, slot, 255));
        } else {
            assert_eq!(*s, sample(0, 0, slot - 255, 256));
        }
    }
}

#[test]
fn stop_at_the_top_owns_the_last_slot() {
    let samples = make_palette(&[hsl_palette_entry(0, 0, 0, 0), hsl_palette_entry(0, 0, 1000, 1000)]);
    assert_eq!(samples[0], sample(0, 1, 0, 511));
    assert_eq!(samples[510], sample(0, 1, 510, 511));
    assert_eq!(samples[511], sample(1, 1, 0, 0));
}

#[test]
fn unsorted_and_equal_stops() {
    let samples = make_palette(&[hsl_palette_entry(0, 0, 0, 500), hsl_palette_entry(0, 0, 0, 500)]);
    assert_eq!(samples[0], sample(0, 0, 0, 255));
    assert_eq!(samples[254], sample(0, 0, 254, 255));
    assert_eq!(samples[255], sample(1, 1, 0, 256));
    let reversed = make_palette(&[hsl_palette_entry(0, 0, 0, 800), hsl_palette_entry(0, 0, 0, 0)]);
    assert_eq!(reversed[0], sample(1, 0, 0, 408));
    assert_eq!(reversed[408], sample(0, 0, 0, 103));
}

#[test]
fn every_preset_palette_lays_out() {
    for name in ["classic", "operator", "nightmare", "resurrections", "paradise", "twilight"] {
        let palette: PaletteSpec = MatrixConfig::for_version(name).palette;
        let samples = make_palette(&palette.entries());
        assert_eq!(samples.len(), 512);
        for s in &samples {
            assert!(s.from < palette.len && s.to < palette.len);
            assert!(s.step <= s.span);
        }
    }
}

#[test]
fn palette_spec_keeps_its_stops() {
    let stops = [hsl_palette_entry(1, 2, 3, 4), hsl_palette_entry(5, 6, 7, 8)];
    let palette = PaletteSpec::new(&stops);
    assert_eq!(palette.len, 2);
    assert_eq!(palette.entries(), stops.to_vec());
    assert_eq!(PaletteSpec::new(&[]).entries(), vec![]);
}
