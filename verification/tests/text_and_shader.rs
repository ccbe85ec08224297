use tank::shader::{RainStage, rain_shader, stage_rewrites};
use tank::text::{chars_of, replace_all, str_equal};

#[test]
fn replace_all_matches_str_replace() {
    let cases = [
        ("aaa", "a", "b"),
        ("abcabc", "bc", "X"),
        ("aaaa", "aa", "a"),
        ("hello", "", "-"),
        ("", "x", "y"),
        ("", "", "z"),
        ("no match here", "xyz", "q"),
        ("ababab", "aba", "c"),
    ];
    for (s, from, to) in cases {
        assert_eq!(replace_all(s, from, to), s.replace(from, to), "{:?}", (s, from, to));
    }
}

#[test]
fn replace_with_itself_changes_nothing() {
    assert_eq!(replace_all("binding(2) binding(3)", "binding", "binding"), "binding(2) binding(3)");
}

#[test]
fn str_equal_and_chars() {
    assert!(str_equal("classic", "classic"));
    assert!(!str_equal("classic", "classi"));
    assert!(!str_equal("a", "b"));
    assert_eq!(chars_of("3d"), vec!['3', 'd']);
}

#[test]
fn every_stage_has_rewrites() {
    for stage in [RainStage::Intro, RainStage::Compute, RainStage::Render] {
        let rewrites = stage_rewrites(stage);
        assert!(!rewrites.is_empty());
        for (from, to) in rewrites {
            assert_ne!(from, to);
        }
    }
}

#[test]
fn rain_shader_moves_the_intro_bindings() {
    let source = "@group(0) @binding(2) var<storage, read_write> cells_RW : array<Cell>;\n\
                  @group(0) @binding(3) var<storage, read_write> introCells_RO : array<Cell>;\n";
    let intro = rain_shader(RainStage::Intro, source);
    assert!(intro.contains("@group(0) @binding(12) var<storage, read_write> cells_RW"));
    assert!(intro.contains("@group(0) @binding(13) var<storage, read_write> introCells_RO"));
    assert_ne!(intro, source);
}

#[test]
fn rain_shader_applies_each_rewrite_in_order() {
    let source = "@group(0) @binding(2) var<storage, read_write> cells_RW : array<Cell>;\n\
                  @group(0) @binding(3) var<storage, read_write> introCells_RO : array<Cell>;\n\
                  @group(0) @binding(2) var<storage, read_write> introCells_RW : array<Cell>;\n";
    for stage in [RainStage::Intro, RainStage::Compute, RainStage::Render] {
        let mut expected = source.to_owned();
        for (from, to) in stage_rewrites(stage) {
            expected = expected.replace(from, to);
        }
        assert_eq!(rain_shader(stage, source), expected);
    }
}

#[test]
fn rain_shader_leaves_other_text_alone() {
    let source = "fn main() { return; }";
    assert_eq!(rain_shader(RainStage::Render, source), source);
}
