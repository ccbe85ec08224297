//! The preset table of the Matrix rain.
//!
//! Every decimal quantity of a configuration is kept in thousandths (an
//! `i32` of 1500 stands for 1.5); angles are thousandths of a degree and
//! colours are hue/saturation/lightness triples in thousandths. The
//! renderer turns these exact values into the floating-point uniforms the
//! shaders read.
use vstd::prelude::*;

use crate::text::str_equal;

verus! {

/// The glyph fonts that ship with the renderer.
#[derive(Clone, Copy, PartialEq, Eq, Debug)]
pub enum FontKind {
    Coptic,
    Gothic,
    MatrixCode,
    Megacity,
    Resurrections,
    HuberfishA,
    HuberfishD,
    GtargTenretniolleh,
    GtargAlientext,
    Neomatrixology,
}

/// What the renderer needs to know about a font: the MSDF atlas (file and
/// label), the optional glint atlas, the number of glyphs in the cycling
/// sequence and the layout of the atlas grid (columns, rows).
#[derive(Clone, Copy, Debug)]
pub struct FontAsset {
    pub glyph_msdf_file: &'static str,
    pub glyph_msdf_label: &'static str,
    pub glint_msdf: Option<(&'static str, &'static str)>,
    pub glyph_sequence_length: u32,
    pub glyph_texture_grid_size: (i32, i32),
}

/// Number of glyphs in the cycling sequence of a font.
pub open spec fn font_sequence_length(font: FontKind) -> u32 {
    match font {
        FontKind::Coptic => 32,
        FontKind::Gothic => 27,
        FontKind::MatrixCode => 57,
        FontKind::Megacity => 64,
        FontKind::Resurrections => 135,
        FontKind::HuberfishA => 34,
        FontKind::HuberfishD => 34,
        FontKind::GtargTenretniolleh => 36,
        FontKind::GtargAlientext => 38,
        FontKind::Neomatrixology => 12,
    }
}

/// Columns and rows of the glyph atlas of a font.
pub open spec fn font_grid_size(font: FontKind) -> (i32, i32) {
    match font {
        FontKind::Coptic => (8, 8),
        FontKind::Gothic => (8, 8),
        FontKind::MatrixCode => (8, 8),
        FontKind::Megacity => (8, 8),
        FontKind::Resurrections => (13, 12),
        FontKind::HuberfishA => (6, 6),
        FontKind::HuberfishD => (6, 6),
        FontKind::GtargTenretniolleh => (6, 6),
        FontKind::GtargAlientext => (8, 5),
        FontKind::Neomatrixology => (4, 4),
    }
}

/// The asset record of each font.
pub open spec fn font_asset(font: FontKind) -> FontAsset {
    match font {
        FontKind::Coptic => FontAsset {
            glyph_msdf_file: "coptic_msdf.png",
            glyph_msdf_label: "Coptic MSDF",
            glint_msdf: None,
            glyph_sequence_length: 32,
            glyph_texture_grid_size: (8, 8),
        },
        FontKind::Gothic => FontAsset {
            glyph_msdf_file: "gothic_msdf.png",
            glyph_msdf_label: "Gothic MSDF",
            glint_msdf: None,
            glyph_sequence_length: 27,
            glyph_texture_grid_size: (8, 8),
        },
        FontKind::MatrixCode => FontAsset {
            glyph_msdf_file: "matrixcode_msdf.png",
            glyph_msdf_label: "Matrix Code MSDF",
            glint_msdf: None,
            glyph_sequence_length: 57,
            glyph_texture_grid_size: (8, 8),
        },
        FontKind::Megacity => FontAsset {
            glyph_msdf_file: "megacity_msdf.png",
            glyph_msdf_label: "Megacity MSDF",
            glint_msdf: None,
            glyph_sequence_length: 64,
            glyph_texture_grid_size: (8, 8),
        },
        FontKind::Resurrections => FontAsset {
            glyph_msdf_file: "resurrections_msdf.png",
            glyph_msdf_label: "Resurrections MSDF",
            glint_msdf: Some(("resurrections_glint_msdf.png", "Resurrections Glint MSDF")),
            glyph_sequence_length: 135,
            glyph_texture_grid_size: (13, 12),
        },
        FontKind::HuberfishA => FontAsset {
            glyph_msdf_file: "huberfish_a_msdf.png",
            glyph_msdf_label: "Huberfish A MSDF",
            glint_msdf: None,
            glyph_sequence_length: 34,
            glyph_texture_grid_size: (6, 6),
        },
        FontKind::HuberfishD => FontAsset {
            glyph_msdf_file: "huberfish_d_msdf.png",
            glyph_msdf_label: "Huberfish D MSDF",
            glint_msdf: None,
            glyph_sequence_length: 34,
            glyph_texture_grid_size: (6, 6),
        },
        FontKind::GtargTenretniolleh => FontAsset {
            glyph_msdf_file: "gtarg_tenretniolleh_msdf.png",
            glyph_msdf_label: "GTArg Tenretniolleh MSDF",
            glint_msdf: None,
            glyph_sequence_length: 36,
            glyph_texture_grid_size: (6, 6),
        },
        FontKind::GtargAlientext => FontAsset {
            glyph_msdf_file: "gtarg_alientext_msdf.png",
            glyph_msdf_label: "GTArg Alientext MSDF",
            glint_msdf: None,
            glyph_sequence_length: 38,
            glyph_texture_grid_size: (8, 5),
        },
        FontKind::Neomatrixology => FontAsset {
            glyph_msdf_file: "neomatrixology_msdf.png",
            glyph_msdf_label: "Neomatrixology MSDF",
            glint_msdf: None,
            glyph_sequence_length: 12,
            glyph_texture_grid_size: (4, 4),
        },
    }
}

impl FontKind {
    /// The asset record of this font.
    pub fn asset(self) -> (asset: FontAsset)
        ensures
            asset == font_asset(self),
            asset.glyph_sequence_length == font_sequence_length(self),
            asset.glyph_texture_grid_size == font_grid_size(self),
    {
        match self {
            FontKind::Coptic => FontAsset {
                glyph_msdf_file: "coptic_msdf.png",
                glyph_msdf_label: "Coptic MSDF",
                glint_msdf: None,
                glyph_sequence_length: 32,
                glyph_texture_grid_size: (8, 8),
            },
            FontKind::Gothic => FontAsset {
                glyph_msdf_file: "gothic_msdf.png",
                glyph_msdf_label: "Gothic MSDF",
                glint_msdf: None,
                glyph_sequence_length: 27,
                glyph_texture_grid_size: (8, 8),
            },
            FontKind::MatrixCode => FontAsset {
                glyph_msdf_file: "matrixcode_msdf.png",
                glyph_msdf_label: "Matrix Code MSDF",
                glint_msdf: None,
                glyph_sequence_length: 57,
                glyph_texture_grid_size: (8, 8),
            },
            FontKind::Megacity => FontAsset {
                glyph_msdf_file: "megacity_msdf.png",
                glyph_msdf_label: "Megacity MSDF",
                glint_msdf: None,
                glyph_sequence_length: 64,
                glyph_texture_grid_size: (8, 8),
            },
            FontKind::Resurrections => FontAsset {
                glyph_msdf_file: "resurrections_msdf.png",
                glyph_msdf_label: "Resurrections MSDF",
                glint_msdf: Some(("resurrections_glint_msdf.png", "Resurrections Glint MSDF")),
                glyph_sequence_length: 135,
                glyph_texture_grid_size: (13, 12),
            },
            FontKind::HuberfishA => FontAsset {
                glyph_msdf_file: "huberfish_a_msdf.png",
                glyph_msdf_label: "Huberfish A MSDF",
                glint_msdf: None,
                glyph_sequence_length: 34,
                glyph_texture_grid_size: (6, 6),
            },
            FontKind::HuberfishD => FontAsset {
                glyph_msdf_file: "huberfish_d_msdf.png",
                glyph_msdf_label: "Huberfish D MSDF",
                glint_msdf: None,
                glyph_sequence_length: 34,
                glyph_texture_grid_size: (6, 6),
            },
            FontKind::GtargTenretniolleh => FontAsset {
                glyph_msdf_file: "gtarg_tenretniolleh_msdf.png",
                glyph_msdf_label: "GTArg Tenretniolleh MSDF",
                glint_msdf: None,
                glyph_sequence_length: 36,
                glyph_texture_grid_size: (6, 6),
            },
            FontKind::GtargAlientext => FontAsset {
                glyph_msdf_file: "gtarg_alientext_msdf.png",
                glyph_msdf_label: "GTArg Alientext MSDF",
                glint_msdf: None,
                glyph_sequence_length: 38,
                glyph_texture_grid_size: (8, 5),
            },
            FontKind::Neomatrixology => FontAsset {
                glyph_msdf_file: "neomatrixology_msdf.png",
                glyph_msdf_label: "Neomatrixology MSDF",
                glint_msdf: None,
                glyph_sequence_length: 12,
                glyph_texture_grid_size: (4, 4),
            },
        }
    }
}

/// The surface textures that a preset may lay over the glyphs.
#[derive(Clone, Copy, PartialEq, Eq, Debug)]
pub enum TextureKind {
    Sand,
    Pixels,
    Mesh,
    Metal,
}

/// The asset file that holds the image of a texture.
pub open spec fn texture_file(texture: TextureKind) -> &'static str {
    match texture {
        TextureKind::Sand => "sand.png",
        TextureKind::Pixels => "pixel_grid.png",
        TextureKind::Mesh => "mesh.png",
        TextureKind::Metal => "metal.png",
    }
}

/// The debugging label of a texture.
pub open spec fn texture_label(texture: TextureKind) -> &'static str {
    match texture {
        TextureKind::Sand => "Sand Texture",
        TextureKind::Pixels => "Pixel Grid Texture",
        TextureKind::Mesh => "Mesh Texture",
        TextureKind::Metal => "Metal Texture",
    }
}

impl TextureKind {
    /// The asset file (in the renderer's asset directory) whose bytes are
    /// this texture.
    pub fn file_name(self) -> (file: &'static str)
        ensures
            file == texture_file(self),
    {
        match self {
            TextureKind::Sand => "sand.png",
            TextureKind::Pixels => "pixel_grid.png",
            TextureKind::Mesh => "mesh.png",
            TextureKind::Metal => "metal.png",
        }
    }

    pub fn label(self) -> (label: &'static str)
        ensures
            label == texture_label(self),
    {
        match self {
            TextureKind::Sand => "Sand Texture",
            TextureKind::Pixels => "Pixel Grid Texture",
            TextureKind::Mesh => "Mesh Texture",
            TextureKind::Metal => "Metal Texture",
        }
    }
}

/// Which flavour of raindrop ripple a preset uses.
#[derive(Clone, Copy, PartialEq, Eq, Debug)]
pub enum RippleType {
    Box,
    Circle,
}

/// The integer that the rain shader expects for a ripple type; no ripple
/// at all is encoded as -1.
pub open spec fn ripple_code(ripple: Option<RippleType>) -> i32 {
    match ripple {
        Some(RippleType::Box) => 0i32,
        Some(RippleType::Circle) => 1i32,
        None => -1i32,
    }
}

impl RippleType {
    pub fn shader_value(self) -> (value: i32)
        ensures
            value == ripple_code(Some(self)),
    {
        match self {
            RippleType::Box => 0,
            RippleType::Circle => 1,
        }
    }
}

/// The shader code of an optional ripple type (`-1` for none).
pub fn ripple_shader_value(ripple: Option<RippleType>) -> (value: i32)
    ensures
        value == ripple_code(ripple),
{
    match ripple {
        Some(r) => r.shader_value(),
        None => -1,
    }
}

/// A colour as hue, saturation and lightness, each in thousandths.
#[derive(Clone, Copy, PartialEq, Eq, Debug)]
pub struct Hsl {
    pub hue: i32,
    pub saturation: i32,
    pub lightness: i32,
}

/// One stop of a colour gradient: a colour and its position (thousandths,
/// 0 for the dark end, 1000 for the bright end).
#[derive(Clone, Copy, PartialEq, Eq, Debug)]
pub struct PaletteEntry {
    pub color: Hsl,
    pub at: i32,
}

pub open spec fn hsl(hue: i32, saturation: i32, lightness: i32) -> Hsl {
    Hsl { hue, saturation, lightness }
}

pub open spec fn stop(hue: i32, saturation: i32, lightness: i32, at: i32) -> PaletteEntry {
    PaletteEntry { color: hsl(hue, saturation, lightness), at }
}

/// The unused slots of a palette hold this entry.
pub open spec fn blank_entry() -> PaletteEntry {
    stop(0, 0, 0, 0)
}

/// The most gradient stops a palette holds.
pub const MAX_PALETTE_ENTRIES: usize = 5;

/// Up to five gradient stops, kept in a fixed array so that a
/// configuration stays `Copy`.
#[derive(Clone, Copy, PartialEq, Eq, Debug)]
pub struct PaletteSpec {
    pub entries: [PaletteEntry; 5],
    pub len: usize,
}

impl View for PaletteSpec {
    type V = Seq<PaletteEntry>;

    /// The stops in use.
    open spec fn view(&self) -> Seq<PaletteEntry> {
        self.entries@.take(self.len as int)
    }
}

/// The palette that holds exactly the stops `stops` (at most five), the
/// unused slots blank.
pub open spec fn palette_of(stops: Seq<PaletteEntry>) -> PaletteSpec {
    PaletteSpec {
        entries: [
            if 0 < stops.len() { stops[0] } else { blank_entry() },
            if 1 < stops.len() { stops[1] } else { blank_entry() },
            if 2 < stops.len() { stops[2] } else { blank_entry() },
            if 3 < stops.len() { stops[3] } else { blank_entry() },
            if 4 < stops.len() { stops[4] } else { blank_entry() },
        ],
        len: stops.len() as usize,
    }
}

impl PaletteSpec {
    /// Stores the given stops; at most five fit.
    pub fn new(entries: &[PaletteEntry]) -> (palette: Self)
        requires
            entries@.len() <= MAX_PALETTE_ENTRIES,
        ensures
            palette == palette_of(entries@),
            palette@ == entries@,
    {
        let blank = PaletteEntry { color: Hsl { hue: 0, saturation: 0, lightness: 0 }, at: 0 };
        let mut stored = [blank; 5];
        let n = entries.len();
        let mut index: usize = 0;
        while index < n
            invariant
                n == entries@.len(),
                n <= 5,
                0 <= index <= n,
                stored@.len() == 5,
                forall|k: int| 0 <= k < index ==> stored@[k] == entries@[k],
                forall|k: int| index <= k < 5 ==> stored@[k] == blank_entry(),
            decreases n - index,
        {
            stored[index] = entries[index];
            index += 1;
        }
        let palette = PaletteSpec { entries: stored, len: n };
        assert(palette.entries =~= palette_of(entries@).entries);
        assert(palette@ =~= entries@);
        palette
    }

    /// The stops in use, in the order they were given.
    pub fn entries(&self) -> (stops: Vec<PaletteEntry>)
        requires
            self.len <= MAX_PALETTE_ENTRIES,
        ensures
            stops@ == self@,
    {
        let mut stops: Vec<PaletteEntry> = Vec::new();
        let mut index: usize = 0;
        while index < self.len
            invariant
                self.len <= 5,
                self.entries@.len() == 5,
                0 <= index <= self.len,
                stops@ == self.entries@.take(index as int),
            decreases self.len - index,
        {
            stops.push(self.entries[index]);
            index += 1;
            assert(stops@ =~= self.entries@.take(index as int));
        }
        stops
    }
}

/// A gradient stop at position `at` whose colour is given as HSL.
pub fn hsl_palette_entry(hue: i32, saturation: i32, lightness: i32, at: i32) -> (entry:
    PaletteEntry)
    ensures
        entry == stop(hue, saturation, lightness, at),
{
    PaletteEntry { color: Hsl { hue, saturation, lightness }, at }
}

/// The green gradient of the classic rain.
pub open spec fn spec_default_palette() -> PaletteSpec {
    palette_of(
        seq![stop(300, 900, 0, 0), stop(300, 900, 200, 200), stop(300, 900, 700, 700), stop(300, 900, 800, 800)],
    )
}

pub fn default_palette() -> (palette: PaletteSpec)
    ensures
        palette == spec_default_palette(),
{
    PaletteSpec::new(
        &[
            hsl_palette_entry(300, 900, 0, 0),
            hsl_palette_entry(300, 900, 200, 200),
            hsl_palette_entry(300, 900, 700, 700),
            hsl_palette_entry(300, 900, 800, 800),
        ],
    )
}

/// The post-processing stage that follows the rain and bloom passes.
#[derive(Clone, Copy, PartialEq, Eq, Debug)]
pub enum EffectKind {
    /// No effect stage: the raw rain goes to the screen.
    Off,
    Plain,
    Palette,
    Mirror,
}

/// The visual effect that `E` switches to.
pub open spec fn spec_next_visual(effect: EffectKind) -> EffectKind {
    match effect {
        EffectKind::Mirror => EffectKind::Palette,
        _ => EffectKind::Mirror,
    }
}

impl EffectKind {
    pub fn is_none(self) -> (none: bool)
        ensures
            none == (self == EffectKind::Off),
    {
        match self {
            EffectKind::Off => true,
            _ => false,
        }
    }

    pub fn next_visual(self) -> (next: Self)
        ensures
            next == spec_next_visual(self),
    {
        match self {
            EffectKind::Mirror => EffectKind::Palette,
            _ => EffectKind::Mirror,
        }
    }
}

/// Everything that selects and tunes the rain. Decimal quantities are in
/// thousandths; `glyph_rotation_degrees` and `slant` are thousandths of a
/// degree.
#[derive(Clone, Copy, PartialEq, Eq, Debug)]
pub struct MatrixConfig {
    pub effect: EffectKind,
    pub font: FontKind,
    pub base_texture: Option<TextureKind>,
    pub glint_texture: Option<TextureKind>,
    pub glyph_flip: bool,
    pub glyph_rotation_degrees: i32,
    pub animation_speed: i32,
    pub glyph_sequence_length: u32,
    pub glyph_texture_grid_size: (i32, i32),
    pub glyph_height_to_width: i32,
    pub brightness_threshold: i32,
    pub brightness_override: i32,
    pub brightness_decay: i32,
    pub cycle_speed: i32,
    pub cycle_frame_skip: i32,
    pub fall_speed: i32,
    pub raindrop_length: i32,
    pub num_columns: u32,
    pub base_brightness: i32,
    pub base_contrast: i32,
    pub glint_brightness: i32,
    pub glint_contrast: i32,
    pub glyph_vertical_spacing: i32,
    pub glyph_edge_crop: i32,
    pub volumetric: bool,
    pub isometric: bool,
    pub density: i32,
    pub slant: i32,
    pub has_thunder: bool,
    pub ripple_type: Option<RippleType>,
    pub ripple_scale: i32,
    pub ripple_speed: i32,
    pub ripple_thickness: i32,
    pub forward_speed: i32,
    pub is_polar: bool,
    pub isolate_cursor: bool,
    pub isolate_glint: bool,
    pub loops: bool,
    pub skip_intro: bool,
    pub high_pass_threshold: i32,
    pub bloom_size: i32,
    pub bloom_strength: i32,
    pub dither_magnitude: i32,
    pub background_color: Hsl,
    pub cursor_color: Hsl,
    pub glint_color: Hsl,
    pub cursor_intensity: i32,
    pub glint_intensity: i32,
    pub palette: PaletteSpec,
}

/// The classic look: the Matrix Code font, green palette, 80 columns.
pub open spec fn spec_default_config() -> MatrixConfig {
    MatrixConfig {
        effect: EffectKind::Palette,
        font: FontKind::MatrixCode,
        base_texture: None,
        glint_texture: None,
        glyph_flip: false,
        glyph_rotation_degrees: 0,
        animation_speed: 1000,
        glyph_sequence_length: font_sequence_length(FontKind::MatrixCode),
        glyph_texture_grid_size: font_grid_size(FontKind::MatrixCode),
        glyph_height_to_width: 1000,
        brightness_threshold: 0,
        brightness_override: 0,
        brightness_decay: 1000,
        cycle_speed: 30,
        cycle_frame_skip: 1,
        fall_speed: 300,
        raindrop_length: 750,
        num_columns: 80,
        base_brightness: -500i32,
        base_contrast: 1100,
        glint_brightness: -1500i32,
        glint_contrast: 2500,
        glyph_vertical_spacing: 1000,
        glyph_edge_crop: 0,
        volumetric: false,
        isometric: false,
        density: 1000,
        slant: 0,
        has_thunder: false,
        ripple_type: None,
        ripple_scale: 30000,
        ripple_speed: 200,
        ripple_thickness: 200,
        forward_speed: 250,
        is_polar: false,
        isolate_cursor: true,
        isolate_glint: false,
        loops: false,
        skip_intro: false,
        high_pass_threshold: 100,
        bloom_size: 400,
        bloom_strength: 700,
        dither_magnitude: 50,
        background_color: hsl(0, 0, 0),
        cursor_color: hsl(242, 1000, 730),
        glint_color: hsl(0, 0, 1000),
        cursor_intensity: 2000,
        glint_intensity: 1000,
        palette: spec_default_palette(),
    }
}

/// `config` with `font` selected, together with the font's glyph count and
/// atlas layout.
pub open spec fn with_font(config: MatrixConfig, font: FontKind) -> MatrixConfig {
    MatrixConfig {
        font,
        glyph_sequence_length: font_sequence_length(font),
        glyph_texture_grid_size: font_grid_size(font),
        ..config
    }
}

/// The settings that the Resurrections look lays over `config`.
pub open spec fn with_resurrections(config: MatrixConfig) -> MatrixConfig {
    MatrixConfig {
        glyph_edge_crop: 100,
        cursor_color: hsl(292, 1000, 800),
        cursor_intensity: 2000,
        base_brightness: -700i32,
        base_contrast: 1170,
        high_pass_threshold: 0,
        num_columns: 70,
        cycle_speed: 30,
        bloom_strength: 700,
        fall_speed: 300,
        palette: palette_of(
            seq![stop(375, 900, 0, 0), stop(375, 1000, 600, 920), stop(375, 1000, 1000, 1000)],
        ),
        ..with_font(config, FontKind::Resurrections)
    }
}

/// The named looks of the rain.
#[derive(Clone, Copy, PartialEq, Eq, Debug)]
pub enum Preset {
    Classic,
    Megacity,
    Neomatrixology,
    Operator,
    Nightmare,
    Paradise,
    Resurrections,
    Trinity,
    Morpheus,
    Bugs,
    Palimpsest,
    Twilight,
    Holoplay,
    ThreeD,
}

/// The look a version name selects; names that are not known select the
/// classic look.
pub open spec fn preset_of(name: Seq<char>) -> Preset {
    if name == "classic"@ || name == "2003"@ {
        Preset::Classic
    } else if name == "megacity"@ {
        Preset::Megacity
    } else if name == "neomatrixology"@ {
        Preset::Neomatrixology
    } else if name == "operator"@ || name == "throwback"@ || name == "1999"@ {
        Preset::Operator
    } else if name == "nightmare"@ {
        Preset::Nightmare
    } else if name == "paradise"@ {
        Preset::Paradise
    } else if name == "resurrections"@ || name == "updated"@ || name == "2021"@ {
        Preset::Resurrections
    } else if name == "trinity"@ {
        Preset::Trinity
    } else if name == "morpheus"@ {
        Preset::Morpheus
    } else if name == "bugs"@ {
        Preset::Bugs
    } else if name == "palimpsest"@ {
        Preset::Palimpsest
    } else if name == "twilight"@ {
        Preset::Twilight
    } else if name == "holoplay"@ {
        Preset::Holoplay
    } else if name == "3d"@ {
        Preset::ThreeD
    } else {
        Preset::Classic
    }
}

/// The settings of each look, before the bloom rule is applied.
pub open spec fn preset_settings(preset: Preset) -> MatrixConfig {
    let d = spec_default_config();
    match preset {
        Preset::Classic => d,
        Preset::Megacity => MatrixConfig {
            animation_speed: 500,
            num_columns: 40,
            ..with_font(d, FontKind::Megacity)
        },
        Preset::Neomatrixology => MatrixConfig {
            animation_speed: 800,
            num_columns: 40,
            palette: palette_of(
                seq![stop(150, 900, 0, 0), stop(150, 900, 200, 200), stop(150, 900, 700, 700), stop(150, 900, 800, 800)],
            ),
            cursor_color: hsl(167, 1000, 750),
            cursor_intensity: 2000,
            ..with_font(d, FontKind::Neomatrixology)
        },
        Preset::Operator => MatrixConfig {
            cursor_color: hsl(375, 1000, 660),
            cursor_intensity: 3000,
            bloom_size: 600,
            bloom_strength: 750,
            high_pass_threshold: 0,
            cycle_speed: 10,
            cycle_frame_skip: 8,
            brightness_override: 220,
            brightness_threshold: 0,
            fall_speed: 600,
            glyph_edge_crop: 150,
            glyph_height_to_width: 1350,
            ripple_type: Some(RippleType::Box),
            num_columns: 108,
            palette: palette_of(
                seq![stop(400, 800, 0, 0), stop(400, 800, 500, 500), stop(400, 800, 1000, 1000)],
            ),
            raindrop_length: 1500,
            ..d
        },
        Preset::Nightmare => MatrixConfig {
            isolate_cursor: false,
            high_pass_threshold: 700,
            base_brightness: -800i32,
            brightness_decay: 750,
            fall_speed: 1200,
            has_thunder: true,
            num_columns: 60,
            cycle_speed: 350,
            palette: palette_of(
                seq![stop(0, 1000, 0, 0), stop(0, 1000, 200, 200), stop(0, 1000, 400, 400), stop(100, 1000, 700, 700), stop(200, 1000, 1000, 1000)],
            ),
            raindrop_length: 500,
            slant: 22500,
            ..with_font(d, FontKind::Gothic)
        },
        Preset::Paradise => MatrixConfig {
            isolate_cursor: false,
            bloom_strength: 1000,
            high_pass_threshold: 0,
            cycle_speed: 5,
            base_brightness: -1300i32,
            base_contrast: 2000,
            brightness_decay: 50,
            fall_speed: 20,
            is_polar: true,
            ripple_type: Some(RippleType::Circle),
            ripple_speed: 100,
            num_columns: 40,
            palette: palette_of(
                seq![stop(0, 0, 0, 0), stop(0, 800, 300, 300), stop(100, 800, 500, 500), stop(100, 1000, 600, 600), stop(100, 1000, 900, 900)],
            ),
            raindrop_length: 400,
            ..with_font(d, FontKind::Coptic)
        },
        Preset::Resurrections => with_resurrections(d),
        Preset::Trinity => MatrixConfig {
            glint_texture: Some(TextureKind::Metal),
            base_texture: Some(TextureKind::Pixels),
            isolate_glint: true,
            glint_color: hsl(131, 1000, 600),
            glint_intensity: 3000,
            glint_brightness: -500i32,
            glint_contrast: 1500,
            base_brightness: -400i32,
            base_contrast: 1500,
            num_columns: 60,
            palette: palette_of(seq![stop(370, 600, 0, 0), stop(370, 600, 500, 1000)]),
            cycle_speed: 10,
            volumetric: true,
            forward_speed: 200,
            raindrop_length: 300,
            density: 750,
            ..with_resurrections(d)
        },
        Preset::Morpheus => MatrixConfig {
            glint_texture: Some(TextureKind::Mesh),
            base_texture: Some(TextureKind::Metal),
            glyph_edge_crop: 100,
            cursor_color: hsl(333, 1000, 850),
            cursor_intensity: 2000,
            isolate_glint: true,
            glint_color: hsl(400, 1000, 500),
            glint_intensity: 2000,
            glint_brightness: -1500i32,
            glint_contrast: 3000,
            base_brightness: -300i32,
            base_contrast: 1500,
            high_pass_threshold: 0,
            num_columns: 60,
            cycle_speed: 15,
            bloom_strength: 700,
            fall_speed: 300,
            palette: palette_of(seq![stop(970, 600, 0, 0), stop(970, 600, 500, 1000)]),
            volumetric: true,
            forward_speed: 100,
            raindrop_length: 400,
            density: 750,
            ..with_font(d, FontKind::Resurrections)
        },
        Preset::Bugs => MatrixConfig {
            glint_texture: Some(TextureKind::Sand),
            base_texture: Some(TextureKind::Metal),
            glyph_edge_crop: 100,
            cursor_color: hsl(619, 1000, 650),
            cursor_intensity: 2000,
            isolate_glint: true,
            glint_color: hsl(625, 1000, 600),
            glint_intensity: 3000,
            glint_brightness: -1000i32,
            glint_contrast: 3000,
            base_brightness: -300i32,
            base_contrast: 1500,
            high_pass_threshold: 0,
            num_columns: 60,
            cycle_speed: 10,
            bloom_strength: 700,
            fall_speed: 300,
            palette: palette_of(seq![stop(120, 600, 0, 0), stop(140, 600, 500, 1000)]),
            volumetric: true,
            forward_speed: 400,
            raindrop_length: 300,
            density: 750,
            ..with_font(d, FontKind::Resurrections)
        },
        Preset::Palimpsest => MatrixConfig {
            isolate_cursor: false,
            bloom_strength: 200,
            num_columns: 40,
            raindrop_length: 1200,
            cycle_frame_skip: 3,
            fall_speed: 500,
            slant: -11250i32,
            palette: palette_of(seq![stop(150, 250, 900, 0), stop(600, 800, 100, 400)]),
            ..with_font(d, FontKind::HuberfishA)
        },
        Preset::Twilight => MatrixConfig {
            cursor_color: hsl(167, 1000, 800),
            cursor_intensity: 1500,
            bloom_strength: 100,
            num_columns: 50,
            raindrop_length: 900,
            fall_speed: 100,
            high_pass_threshold: 0,
            palette: palette_of(
                seq![stop(600, 1000, 50, 0), stop(600, 800, 100, 100), stop(880, 800, 500, 500), stop(150, 1000, 600, 800)],
            ),
            ..with_font(d, FontKind::HuberfishD)
        },
        Preset::Holoplay => MatrixConfig {
            glint_texture: Some(TextureKind::Metal),
            glyph_edge_crop: 100,
            cursor_color: hsl(292, 1000, 800),
            cursor_intensity: 2000,
            isolate_glint: true,
            glint_color: hsl(131, 1000, 600),
            glint_intensity: 3000,
            glint_brightness: -500i32,
            glint_contrast: 1500,
            base_brightness: -400i32,
            base_contrast: 1500,
            high_pass_threshold: 0,
            cycle_speed: 10,
            fall_speed: 300,
            palette: palette_of(seq![stop(370, 600, 0, 0), stop(370, 600, 500, 1000)]),
            raindrop_length: 300,
            num_columns: 20,
            dither_magnitude: 0,
            bloom_strength: 0,
            volumetric: true,
            forward_speed: 0,
            density: 3000,
            ..with_font(d, FontKind::Resurrections)
        },
        Preset::ThreeD => MatrixConfig {
            volumetric: true,
            fall_speed: 500,
            cycle_speed: 30,
            base_brightness: -900i32,
            base_contrast: 1500,
            raindrop_length: 300,
            ..d
        },
    }
}

/// A bloom of no size has no strength either.
pub open spec fn bloom_rule(config: MatrixConfig) -> MatrixConfig {
    if config.bloom_size <= 0 {
        MatrixConfig { bloom_strength: 0, ..config }
    } else {
        config
    }
}

/// The configuration of a look.
pub open spec fn spec_for_preset(preset: Preset) -> MatrixConfig {
    bloom_rule(preset_settings(preset))
}

/// The configuration that a version name selects.
pub open spec fn spec_for_version(name: Seq<char>) -> MatrixConfig {
    spec_for_preset(preset_of(name))
}

/// The share of the rain that is drawn: the configured density for a
/// volumetric rain with an effect stage, full density (1000) otherwise.
pub open spec fn spec_effective_density(config: MatrixConfig) -> i32 {
    if config.volumetric && config.effect != EffectKind::Off {
        config.density
    } else {
        1000
    }
}

/// Columns and rows of the cell grid: the rows are the configured columns,
/// the columns that number scaled by the effective density and rounded
/// down; the conversion saturates, so a density of zero or less gives no
/// columns and an excessive product gives `u32::MAX`.
pub open spec fn spec_grid_size(config: MatrixConfig) -> (u32, u32) {
    let density = spec_effective_density(config);
    let scaled: int = (config.num_columns as int * density as int) / 1000;
    let width: int = if density <= 0 {
        0
    } else if scaled > u32::MAX {
        u32::MAX as int
    } else {
        scaled
    };
    (width as u32, config.num_columns)
}

impl Preset {
    /// The look that a version name selects.
    pub fn from_name(name: &str) -> (preset: Preset)
        ensures
            preset == preset_of(name@),
    {
        if str_equal(name, "classic") || str_equal(name, "2003") {
            Preset::Classic
        } else if str_equal(name, "megacity") {
            Preset::Megacity
        } else if str_equal(name, "neomatrixology") {
            Preset::Neomatrixology
        } else if str_equal(name, "operator") || str_equal(name, "throwback") || str_equal(
            name,
            "1999",
        ) {
            Preset::Operator
        } else if str_equal(name, "nightmare") {
            Preset::Nightmare
        } else if str_equal(name, "paradise") {
            Preset::Paradise
        } else if str_equal(name, "resurrections") || str_equal(name, "updated") || str_equal(
            name,
            "2021",
        ) {
            Preset::Resurrections
        } else if str_equal(name, "trinity") {
            Preset::Trinity
        } else if str_equal(name, "morpheus") {
            Preset::Morpheus
        } else if str_equal(name, "bugs") {
            Preset::Bugs
        } else if str_equal(name, "palimpsest") {
            Preset::Palimpsest
        } else if str_equal(name, "twilight") {
            Preset::Twilight
        } else if str_equal(name, "holoplay") {
            Preset::Holoplay
        } else if str_equal(name, "3d") {
            Preset::ThreeD
        } else {
            Preset::Classic
        }
    }
}

impl Default for MatrixConfig {
    fn default() -> (config: Self)
        ensures
            config == spec_default_config(),
    {
        let font = FontKind::MatrixCode.asset();
        MatrixConfig {
            effect: EffectKind::Palette,
            font: FontKind::MatrixCode,
            base_texture: None,
            glint_texture: None,
            glyph_flip: false,
            glyph_rotation_degrees: 0,
            animation_speed: 1000,
            glyph_sequence_length: font.glyph_sequence_length,
            glyph_texture_grid_size: font.glyph_texture_grid_size,
            glyph_height_to_width: 1000,
            brightness_threshold: 0,
            brightness_override: 0,
            brightness_decay: 1000,
            cycle_speed: 30,
            cycle_frame_skip: 1,
            fall_speed: 300,
            raindrop_length: 750,
            num_columns: 80,
            base_brightness: -500i32,
            base_contrast: 1100,
            glint_brightness: -1500i32,
            glint_contrast: 2500,
            glyph_vertical_spacing: 1000,
            glyph_edge_crop: 0,
            volumetric: false,
            isometric: false,
            density: 1000,
            slant: 0,
            has_thunder: false,
            ripple_type: None,
            ripple_scale: 30000,
            ripple_speed: 200,
            ripple_thickness: 200,
            forward_speed: 250,
            is_polar: false,
            isolate_cursor: true,
            isolate_glint: false,
            loops: false,
            skip_intro: false,
            high_pass_threshold: 100,
            bloom_size: 400,
            bloom_strength: 700,
            dither_magnitude: 50,
            background_color: Hsl { hue: 0, saturation: 0, lightness: 0 },
            cursor_color: Hsl { hue: 242, saturation: 1000, lightness: 730 },
            glint_color: Hsl { hue: 0, saturation: 0, lightness: 1000 },
            cursor_intensity: 2000,
            glint_intensity: 1000,
            palette: default_palette(),
        }
    }
}

impl MatrixConfig {
    /// The configuration that a version name selects (unknown names give
    /// the classic look).
    pub fn for_version(version: &str) -> (config: Self)
        ensures
            config == spec_for_version(version@),
    {
        Self::for_preset(Preset::from_name(version))
    }

    /// The configuration of a look.
    pub fn for_preset(preset: Preset) -> (config: Self)
        ensures
            config == spec_for_preset(preset),
    {
        let mut config = Self::default();
        match preset {
            Preset::Classic => {},
            Preset::Megacity => {
                config.set_font(FontKind::Megacity);
                config.animation_speed = 500;
                config.num_columns = 40;
            },
            Preset::Neomatrixology => {
                config.set_font(FontKind::Neomatrixology);
                config.animation_speed = 800;
                config.num_columns = 40;
                config.palette = PaletteSpec::new(
                    &[
                        hsl_palette_entry(150, 900, 0, 0),
                        hsl_palette_entry(150, 900, 200, 200),
                        hsl_palette_entry(150, 900, 700, 700),
                        hsl_palette_entry(150, 900, 800, 800),
                    ],
                );
                config.cursor_color = Hsl { hue: 167, saturation: 1000, lightness: 750 };
                config.cursor_intensity = 2000;
            },
            Preset::Operator => {
                config.cursor_color = Hsl { hue: 375, saturation: 1000, lightness: 660 };
                config.cursor_intensity = 3000;
                config.bloom_size = 600;
                config.bloom_strength = 750;
                config.high_pass_threshold = 0;
                config.cycle_speed = 10;
                config.cycle_frame_skip = 8;
                config.brightness_override = 220;
                config.brightness_threshold = 0;
                config.fall_speed = 600;
                config.glyph_edge_crop = 150;
                config.glyph_height_to_width = 1350;
                config.ripple_type = Some(RippleType::Box);
                config.num_columns = 108;
                config.palette = PaletteSpec::new(
                    &[
                        hsl_palette_entry(400, 800, 0, 0),
                        hsl_palette_entry(400, 800, 500, 500),
                        hsl_palette_entry(400, 800, 1000, 1000),
                    ],
                );
                config.raindrop_length = 1500;
            },
            Preset::Nightmare => {
                config.set_font(FontKind::Gothic);
                config.isolate_cursor = false;
                config.high_pass_threshold = 700;
                config.base_brightness = -800;
                config.brightness_decay = 750;
                config.fall_speed = 1200;
                config.has_thunder = true;
                config.num_columns = 60;
                config.cycle_speed = 350;
                config.palette = PaletteSpec::new(
                    &[
                        hsl_palette_entry(0, 1000, 0, 0),
                        hsl_palette_entry(0, 1000, 200, 200),
                        hsl_palette_entry(0, 1000, 400, 400),
                        hsl_palette_entry(100, 1000, 700, 700),
                        hsl_palette_entry(200, 1000, 1000, 1000),
                    ],
                );
                config.raindrop_length = 500;
                config.slant = 22500;
            },
            Preset::Paradise => {
                config.set_font(FontKind::Coptic);
                config.isolate_cursor = false;
                config.bloom_strength = 1000;
                config.high_pass_threshold = 0;
                config.cycle_speed = 5;
                config.base_brightness = -1300;
                config.base_contrast = 2000;
                config.brightness_decay = 50;
                config.fall_speed = 20;
                config.is_polar = true;
                config.ripple_type = Some(RippleType::Circle);
                config.ripple_speed = 100;
                config.num_columns = 40;
                config.palette = PaletteSpec::new(
                    &[
                        hsl_palette_entry(0, 0, 0, 0),
                        hsl_palette_entry(0, 800, 300, 300),
                        hsl_palette_entry(100, 800, 500, 500),
                        hsl_palette_entry(100, 1000, 600, 600),
                        hsl_palette_entry(100, 1000, 900, 900),
                    ],
                );
                config.raindrop_length = 400;
            },
            Preset::Resurrections => {
                config.apply_resurrections();
            },
            Preset::Trinity => {
                config.apply_resurrections();
                config.glint_texture = Some(TextureKind::Metal);
                config.base_texture = Some(TextureKind::Pixels);
                config.isolate_glint = true;
                config.glint_color = Hsl { hue: 131, saturation: 1000, lightness: 600 };
                config.glint_intensity = 3000;
                config.glint_brightness = -500;
                config.glint_contrast = 1500;
                config.base_brightness = -400;
                config.base_contrast = 1500;
                config.num_columns = 60;
                config.palette = PaletteSpec::new(
                    &[hsl_palette_entry(370, 600, 0, 0), hsl_palette_entry(370, 600, 500, 1000)],
                );
                config.cycle_speed = 10;
                config.volumetric = true;
                config.forward_speed = 200;
                config.raindrop_length = 300;
                config.density = 750;
            },
            Preset::Morpheus => {
                config.set_font(FontKind::Resurrections);
                config.glint_texture = Some(TextureKind::Mesh);
                config.base_texture = Some(TextureKind::Metal);
                config.glyph_edge_crop = 100;
                config.cursor_color = Hsl { hue: 333, saturation: 1000, lightness: 850 };
                config.cursor_intensity = 2000;
                config.isolate_glint = true;
                config.glint_color = Hsl { hue: 400, saturation: 1000, lightness: 500 };
                config.glint_intensity = 2000;
                config.glint_brightness = -1500;
                config.glint_contrast = 3000;
                config.base_brightness = -300;
                config.base_contrast = 1500;
                config.high_pass_threshold = 0;
                config.num_columns = 60;
                config.cycle_speed = 15;
                config.bloom_strength = 700;
                config.fall_speed = 300;
                config.palette = PaletteSpec::new(
                    &[hsl_palette_entry(970, 600, 0, 0), hsl_palette_entry(970, 600, 500, 1000)],
                );
                config.volumetric = true;
                config.forward_speed = 100;
                config.raindrop_length = 400;
                config.density = 750;
            },
            Preset::Bugs => {
                config.set_font(FontKind::Resurrections);
                config.glint_texture = Some(TextureKind::Sand);
                config.base_texture = Some(TextureKind::Metal);
                config.glyph_edge_crop = 100;
                config.cursor_color = Hsl { hue: 619, saturation: 1000, lightness: 650 };
                config.cursor_intensity = 2000;
                config.isolate_glint = true;
                config.glint_color = Hsl { hue: 625, saturation: 1000, lightness: 600 };
                config.glint_intensity = 3000;
                config.glint_brightness = -1000;
                config.glint_contrast = 3000;
                config.base_brightness = -300;
                config.base_contrast = 1500;
                config.high_pass_threshold = 0;
                config.num_columns = 60;
                config.cycle_speed = 10;
                config.bloom_strength = 700;
                config.fall_speed = 300;
                config.palette = PaletteSpec::new(
                    &[hsl_palette_entry(120, 600, 0, 0), hsl_palette_entry(140, 600, 500, 1000)],
                );
                config.volumetric = true;
                config.forward_speed = 400;
                config.raindrop_length = 300;
                config.density = 750;
            },
            Preset::Palimpsest => {
                config.set_font(FontKind::HuberfishA);
                config.isolate_cursor = false;
                config.bloom_strength = 200;
                config.num_columns = 40;
                config.raindrop_length = 1200;
                config.cycle_frame_skip = 3;
                config.fall_speed = 500;
                config.slant = -11250;
                config.palette = PaletteSpec::new(
                    &[hsl_palette_entry(150, 250, 900, 0), hsl_palette_entry(600, 800, 100, 400)],
                );
            },
            Preset::Twilight => {
                config.set_font(FontKind::HuberfishD);
                config.cursor_color = Hsl { hue: 167, saturation: 1000, lightness: 800 };
                config.cursor_intensity = 1500;
                config.bloom_strength = 100;
                config.num_columns = 50;
                config.raindrop_length = 900;
                config.fall_speed = 100;
                config.high_pass_threshold = 0;
                config.palette = PaletteSpec::new(
                    &[
                        hsl_palette_entry(600, 1000, 50, 0),
                        hsl_palette_entry(600, 800, 100, 100),
                        hsl_palette_entry(880, 800, 500, 500),
                        hsl_palette_entry(150, 1000, 600, 800),
                    ],
                );
            },
            Preset::Holoplay => {
                config.set_font(FontKind::Resurrections);
                config.glint_texture = Some(TextureKind::Metal);
                config.glyph_edge_crop = 100;
                config.cursor_color = Hsl { hue: 292, saturation: 1000, lightness: 800 };
                config.cursor_intensity = 2000;
                config.isolate_glint = true;
                config.glint_color = Hsl { hue: 131, saturation: 1000, lightness: 600 };
                config.glint_intensity = 3000;
                config.glint_brightness = -500;
                config.glint_contrast = 1500;
                config.base_brightness = -400;
                config.base_contrast = 1500;
                config.high_pass_threshold = 0;
                config.cycle_speed = 10;
                config.fall_speed = 300;
                config.palette = PaletteSpec::new(
                    &[hsl_palette_entry(370, 600, 0, 0), hsl_palette_entry(370, 600, 500, 1000)],
                );
                config.raindrop_length = 300;
                config.num_columns = 20;
                config.dither_magnitude = 0;
                config.bloom_strength = 0;
                config.volumetric = true;
                config.forward_speed = 0;
                config.density = 3000;
            },
            Preset::ThreeD => {
                config.volumetric = true;
                config.fall_speed = 500;
                config.cycle_speed = 30;
                config.base_brightness = -900;
                config.base_contrast = 1500;
                config.raindrop_length = 300;
            },
        }
        if config.bloom_size <= 0 {
            config.bloom_strength = 0;
        }
        config
    }

    /// Selects `font`, with its glyph count and atlas layout.
    pub fn set_font(&mut self, font: FontKind)
        ensures
            *final(self) == with_font(*old(self), font),
    {
        let asset = font.asset();
        self.font = font;
        self.glyph_sequence_length = asset.glyph_sequence_length;
        self.glyph_texture_grid_size = asset.glyph_texture_grid_size;
    }

    /// Lays the Resurrections look over this configuration.
    pub fn apply_resurrections(&mut self)
        ensures
            *final(self) == with_resurrections(*old(self)),
    {
        self.set_font(FontKind::Resurrections);
        self.glyph_edge_crop = 100;
        self.cursor_color = Hsl { hue: 292, saturation: 1000, lightness: 800 };
        self.cursor_intensity = 2000;
        self.base_brightness = -700;
        self.base_contrast = 1170;
        self.high_pass_threshold = 0;
        self.num_columns = 70;
        self.cycle_speed = 30;
        self.bloom_strength = 700;
        self.fall_speed = 300;
        self.palette = PaletteSpec::new(
            &[
                hsl_palette_entry(375, 900, 0, 0),
                hsl_palette_entry(375, 1000, 600, 920),
                hsl_palette_entry(375, 1000, 1000, 1000),
            ],
        );
    }

    /// Columns and rows of the cell grid.
    pub fn grid_size(self) -> (size: [u32; 2])
        ensures
            size[0] == spec_grid_size(self).0,
            size[1] == spec_grid_size(self).1,
    {
        let density = self.effective_density();
        let width: u32 = if density <= 0 {
            0
        } else {
            let columns = self.num_columns as u64;
            let share = density as u64;
            assert(columns * share <= u32::MAX as u64 * i32::MAX as u64) by (nonlinear_arith)
                requires
                    columns <= u32::MAX,
                    share <= i32::MAX,
            ;
            let scaled: u64 = columns * share / 1000;
            if scaled > u32::MAX as u64 {
                u32::MAX
            } else {
                scaled as u32
            }
        };
        [width, self.num_columns]
    }

    /// The share of the rain that is drawn, in thousandths.
    pub fn effective_density(self) -> (density: i32)
        ensures
            density == spec_effective_density(self),
    {
        if self.volumetric && !self.effect.is_none() {
            self.density
        } else {
            1000
        }
    }
}

/// The version name of each look.
pub open spec fn preset_name(preset: Preset) -> Seq<char> {
    match preset {
        Preset::Classic => "classic"@,
        Preset::Megacity => "megacity"@,
        Preset::Neomatrixology => "neomatrixology"@,
        Preset::Operator => "operator"@,
        Preset::Nightmare => "nightmare"@,
        Preset::Paradise => "paradise"@,
        Preset::Resurrections => "resurrections"@,
        Preset::Trinity => "trinity"@,
        Preset::Morpheus => "morpheus"@,
        Preset::Bugs => "bugs"@,
        Preset::Palimpsest => "palimpsest"@,
        Preset::Twilight => "twilight"@,
        Preset::Holoplay => "holoplay"@,
        Preset::ThreeD => "3d"@,
    }
}

impl Preset {
    /// The version name of this look.
    pub fn name(self) -> (name: &'static str)
        ensures
            name@ == preset_name(self),
    {
        proof {
            reveal_strlit("classic");
            reveal_strlit("2003");
            reveal_strlit("megacity");
            reveal_strlit("neomatrixology");
            reveal_strlit("operator");
            reveal_strlit("throwback");
            reveal_strlit("1999");
            reveal_strlit("nightmare");
            reveal_strlit("paradise");
            reveal_strlit("resurrections");
            reveal_strlit("updated");
            reveal_strlit("2021");
            reveal_strlit("trinity");
            reveal_strlit("morpheus");
            reveal_strlit("bugs");
            reveal_strlit("palimpsest");
            reveal_strlit("twilight");
            reveal_strlit("holoplay");
            reveal_strlit("3d");
        }
        match self {
            Preset::Classic => "classic",
            Preset::Megacity => "megacity",
            Preset::Neomatrixology => "neomatrixology",
            Preset::Operator => "operator",
            Preset::Nightmare => "nightmare",
            Preset::Paradise => "paradise",
            Preset::Resurrections => "resurrections",
            Preset::Trinity => "trinity",
            Preset::Morpheus => "morpheus",
            Preset::Bugs => "bugs",
            Preset::Palimpsest => "palimpsest",
            Preset::Twilight => "twilight",
            Preset::Holoplay => "holoplay",
            Preset::ThreeD => "3d",
        }
    }
}

/// Each look's own name selects that look, so no two looks share a name
/// and none of them is shadowed by another name or by the classic
/// fallback.
pub proof fn lemma_preset_names_select_their_look(preset: Preset, other: Preset)
    ensures
        preset_of(preset_name(preset)) == preset,
        preset != other ==> preset_name(preset) != preset_name(other),
{
    reveal_strlit("classic");
    reveal_strlit("2003");
    reveal_strlit("megacity");
    reveal_strlit("neomatrixology");
    reveal_strlit("operator");
    reveal_strlit("throwback");
    reveal_strlit("1999");
    reveal_strlit("nightmare");
    reveal_strlit("paradise");
    reveal_strlit("resurrections");
    reveal_strlit("updated");
    reveal_strlit("2021");
    reveal_strlit("trinity");
    reveal_strlit("morpheus");
    reveal_strlit("bugs");
    reveal_strlit("palimpsest");
    reveal_strlit("twilight");
    reveal_strlit("holoplay");
    reveal_strlit("3d");
    lemma_name_selects(preset);
    lemma_name_selects(other);
}

proof fn lemma_name_selects(preset: Preset)
    ensures
        preset_of(preset_name(preset)) == preset,
{
    reveal_strlit("classic");
    reveal_strlit("2003");
    reveal_strlit("megacity");
    reveal_strlit("neomatrixology");
    reveal_strlit("operator");
    reveal_strlit("throwback");
    reveal_strlit("1999");
    reveal_strlit("nightmare");
    reveal_strlit("paradise");
    reveal_strlit("resurrections");
    reveal_strlit("updated");
    reveal_strlit("2021");
    reveal_strlit("trinity");
    reveal_strlit("morpheus");
    reveal_strlit("bugs");
    reveal_strlit("palimpsest");
    reveal_strlit("twilight");
    reveal_strlit("holoplay");
    reveal_strlit("3d");
    match preset {
        Preset::Classic => {
        },
        Preset::Megacity => {
            assert("megacity"@.len() != "classic"@.len());
            assert("megacity"@.len() != "2003"@.len());
        },
        Preset::Neomatrixology => {
            assert("neomatrixology"@.len() != "classic"@.len());
            assert("neomatrixology"@.len() != "2003"@.len());
            assert("neomatrixology"@.len() != "megacity"@.len());
        },
        Preset::Operator => {
            assert("operator"@.len() != "classic"@.len());
            assert("operator"@.len() != "2003"@.len());
            assert("operator"@[0] != "megacity"@[0]);
            assert("operator"@.len() != "neomatrixology"@.len());
        },
        Preset::Nightmare => {
            assert("nightmare"@.len() != "classic"@.len());
            assert("nightmare"@.len() != "2003"@.len());
            assert("nightmare"@.len() != "megacity"@.len());
            assert("nightmare"@.len() != "neomatrixology"@.len());
            assert("nightmare"@.len() != "operator"@.len());
            assert("nightmare"@[0] != "throwback"@[0]);
            assert("nightmare"@.len() != "1999"@.len());
        },
        Preset::Paradise => {
            assert("paradise"@.len() != "classic"@.len());
            assert("paradise"@.len() != "2003"@.len());
            assert("paradise"@[0] != "megacity"@[0]);
            assert("paradise"@.len() != "neomatrixology"@.len());
            assert("paradise"@[0] != "operator"@[0]);
            assert("paradise"@.len() != "throwback"@.len());
            assert("paradise"@.len() != "1999"@.len());
            assert("paradise"@.len() != "nightmare"@.len());
        },
        Preset::Resurrections => {
            assert("resurrections"@.len() != "classic"@.len());
            assert("resurrections"@.len() != "2003"@.len());
            assert("resurrections"@.len() != "megacity"@.len());
            assert("resurrections"@.len() != "neomatrixology"@.len());
            assert("resurrections"@.len() != "operator"@.len());
            assert("resurrections"@.len() != "throwback"@.len());
            assert("resurrections"@.len() != "1999"@.len());
            assert("resurrections"@.len() != "nightmare"@.len());
            assert("resurrections"@.len() != "paradise"@.len());
        },
        Preset::Trinity => {
            assert("trinity"@[0] != "classic"@[0]);
            assert("trinity"@.len() != "2003"@.len());
            assert("trinity"@.len() != "megacity"@.len());
            assert("trinity"@.len() != "neomatrixology"@.len());
            assert("trinity"@.len() != "operator"@.len());
            assert("trinity"@.len() != "throwback"@.len());
            assert("trinity"@.len() != "1999"@.len());
            assert("trinity"@.len() != "nightmare"@.len());
            assert("trinity"@.len() != "paradise"@.len());
            assert("trinity"@.len() != "resurrections"@.len());
            assert("trinity"@[0] != "updated"@[0]);
            assert("trinity"@.len() != "2021"@.len());
        },
        Preset::Morpheus => {
            assert("morpheus"@.len() != "classic"@.len());
            assert("morpheus"@.len() != "2003"@.len());
            assert("morpheus"@[1] != "megacity"@[1]);
            assert("morpheus"@.len() != "neomatrixology"@.len());
            assert("morpheus"@[0] != "operator"@[0]);
            assert("morpheus"@.len() != "throwback"@.len());
            assert("morpheus"@.len() != "1999"@.len());
            assert("morpheus"@.len() != "nightmare"@.len());
            assert("morpheus"@[0] != "paradise"@[0]);
            assert("morpheus"@.len() != "resurrections"@.len());
            assert("morpheus"@.len() != "updated"@.len());
            assert("morpheus"@.len() != "2021"@.len());
            assert("morpheus"@.len() != "trinity"@.len());
        },
        Preset::Bugs => {
            assert("bugs"@.len() != "classic"@.len());
            assert("bugs"@[0] != "2003"@[0]);
            assert("bugs"@.len() != "megacity"@.len());
            assert("bugs"@.len() != "neomatrixology"@.len());
            assert("bugs"@.len() != "operator"@.len());
            assert("bugs"@.len() != "throwback"@.len());
            assert("bugs"@[0] != "1999"@[0]);
            assert("bugs"@.len() != "nightmare"@.len());
            assert("bugs"@.len() != "paradise"@.len());
            assert("bugs"@.len() != "resurrections"@.len());
            assert("bugs"@.len() != "updated"@.len());
            assert("bugs"@[0] != "2021"@[0]);
            assert("bugs"@.len() != "trinity"@.len());
            assert("bugs"@.len() != "morpheus"@.len());
        },
        Preset::Palimpsest => {
            assert("palimpsest"@.len() != "classic"@.len());
            assert("palimpsest"@.len() != "2003"@.len());
            assert("palimpsest"@.len() != "megacity"@.len());
            assert("palimpsest"@.len() != "neomatrixology"@.len());
            assert("palimpsest"@.len() != "operator"@.len());
            assert("palimpsest"@.len() != "throwback"@.len());
            assert("palimpsest"@.len() != "1999"@.len());
            assert("palimpsest"@.len() != "nightmare"@.len());
            assert("palimpsest"@.len() != "paradise"@.len());
            assert("palimpsest"@.len() != "resurrections"@.len());
            assert("palimpsest"@.len() != "updated"@.len());
            assert("palimpsest"@.len() != "2021"@.len());
            assert("palimpsest"@.len() != "trinity"@.len());
            assert("palimpsest"@.len() != "morpheus"@.len());
            assert("palimpsest"@.len() != "bugs"@.len());
        },
        Preset::Twilight => {
            assert("twilight"@.len() != "classic"@.len());
            assert("twilight"@.len() != "2003"@.len());
            assert("twilight"@[0] != "megacity"@[0]);
            assert("twilight"@.len() != "neomatrixology"@.len());
            assert("twilight"@[0] != "operator"@[0]);
            assert("twilight"@.len() != "throwback"@.len());
            assert("twilight"@.len() != "1999"@.len());
            assert("twilight"@.len() != "nightmare"@.len());
            assert("twilight"@[0] != "paradise"@[0]);
            assert("twilight"@.len() != "resurrections"@.len());
            assert("twilight"@.len() != "updated"@.len());
            assert("twilight"@.len() != "2021"@.len());
            assert("twilight"@.len() != "trinity"@.len());
            assert("twilight"@[0] != "morpheus"@[0]);
            assert("twilight"@.len() != "bugs"@.len());
            assert("twilight"@.len() != "palimpsest"@.len());
        },
        Preset::Holoplay => {
            assert("holoplay"@.len() != "classic"@.len());
            assert("holoplay"@.len() != "2003"@.len());
            assert("holoplay"@[0] != "megacity"@[0]);
            assert("holoplay"@.len() != "neomatrixology"@.len());
            assert("holoplay"@[0] != "operator"@[0]);
            assert("holoplay"@.len() != "throwback"@.len());
            assert("holoplay"@.len() != "1999"@.len());
            assert("holoplay"@.len() != "nightmare"@.len());
            assert("holoplay"@[0] != "paradise"@[0]);
            assert("holoplay"@.len() != "resurrections"@.len());
            assert("holoplay"@.len() != "updated"@.len());
            assert("holoplay"@.len() != "2021"@.len());
            assert("holoplay"@.len() != "trinity"@.len());
            assert("holoplay"@[0] != "morpheus"@[0]);
            assert("holoplay"@.len() != "bugs"@.len());
            assert("holoplay"@.len() != "palimpsest"@.len());
            assert("holoplay"@[0] != "twilight"@[0]);
        },
        Preset::ThreeD => {
            assert("3d"@.len() != "classic"@.len());
            assert("3d"@.len() != "2003"@.len());
            assert("3d"@.len() != "megacity"@.len());
            assert("3d"@.len() != "neomatrixology"@.len());
            assert("3d"@.len() != "operator"@.len());
            assert("3d"@.len() != "throwback"@.len());
            assert("3d"@.len() != "1999"@.len());
            assert("3d"@.len() != "nightmare"@.len());
            assert("3d"@.len() != "paradise"@.len());
            assert("3d"@.len() != "resurrections"@.len());
            assert("3d"@.len() != "updated"@.len());
            assert("3d"@.len() != "2021"@.len());
            assert("3d"@.len() != "trinity"@.len());
            assert("3d"@.len() != "morpheus"@.len());
            assert("3d"@.len() != "bugs"@.len());
            assert("3d"@.len() != "palimpsest"@.len());
            assert("3d"@.len() != "twilight"@.len());
            assert("3d"@.len() != "holoplay"@.len());
        },
    }
}

/// Every look keeps the glyph count and atlas layout of the font it
/// selects.
pub proof fn lemma_preset_font_consistent(preset: Preset)
    ensures
        spec_for_preset(preset).glyph_sequence_length == font_sequence_length(
            spec_for_preset(preset).font,
        ),
        spec_for_preset(preset).glyph_texture_grid_size == font_grid_size(
            spec_for_preset(preset).font,
        ),
{
}

/// Every look has a gradient of one to five stops, placed in order from
/// the dark end, with blank unused slots, and a bloom of positive size;
/// every look starts with the palette effect and the intro, on a grid of
/// at least one row.
pub proof fn lemma_preset_well_formed(preset: Preset)
    ensures
        1 <= spec_for_preset(preset).palette.len <= MAX_PALETTE_ENTRIES,
        forall|k: int|
            spec_for_preset(preset).palette.len <= k < 5 ==> spec_for_preset(
                preset,
            ).palette.entries@[k] == blank_entry(),
        forall|i: int, j: int|
            0 <= i <= j < spec_for_preset(preset).palette.len ==> spec_for_preset(
                preset,
            ).palette.entries@[i].at <= spec_for_preset(preset).palette.entries@[j].at,
        spec_for_preset(preset).bloom_size > 0,
        spec_for_preset(preset).num_columns > 0,
        spec_for_preset(preset).effect == EffectKind::Palette,
        !spec_for_preset(preset).skip_intro,
{
}

/// Aliases and unknown names: "2003" and any name that no look claims give
/// the classic configuration, which is the default one; "throwback" and
/// "1999" give the operator look; "updated" and "2021" give the
/// resurrections look.
pub proof fn lemma_version_aliases(name: Seq<char>)
    ensures
        spec_for_version("classic"@) == spec_default_config(),
        spec_for_version("2003"@) == spec_default_config(),
        spec_for_version("throwback"@) == spec_for_version("operator"@),
        spec_for_version("1999"@) == spec_for_version("operator"@),
        spec_for_version("updated"@) == spec_for_version("resurrections"@),
        spec_for_version("2021"@) == spec_for_version("resurrections"@),
        preset_of(name) == Preset::Classic ==> spec_for_version(name) == spec_default_config(),
{
    reveal_strlit("classic");
    reveal_strlit("2003");
    reveal_strlit("megacity");
    reveal_strlit("neomatrixology");
    reveal_strlit("operator");
    reveal_strlit("throwback");
    reveal_strlit("1999");
    reveal_strlit("nightmare");
    reveal_strlit("paradise");
    reveal_strlit("resurrections");
    reveal_strlit("updated");
    reveal_strlit("2021");
    assert("classic"@.len() == 7);
    assert("2003"@.len() == 4);
    assert("megacity"@.len() == 8);
    assert("neomatrixology"@.len() == 14);
    assert("operator"@.len() == 8);
    assert("throwback"@.len() == 9);
    assert("1999"@.len() == 4);
    assert("nightmare"@.len() == 9);
    assert("paradise"@.len() == 8);
    assert("resurrections"@.len() == 13);
    assert("updated"@.len() == 7);
    assert("2021"@.len() == 4);
    assert("operator"@[0] != "megacity"@[0]);
    assert("1999"@[0] != "2003"@[0]);
    assert("updated"@[0] != "classic"@[0]);
    assert("2021"@[2] != "2003"@[2]);
    assert("2021"@[0] != "1999"@[0]);
    assert(preset_of("operator"@) == Preset::Operator);
    assert(preset_of("throwback"@) == Preset::Operator);
    assert(preset_of("1999"@) == Preset::Operator);
    assert(preset_of("resurrections"@) == Preset::Resurrections);
    assert(preset_of("updated"@) == Preset::Resurrections);
    assert(preset_of("2021"@) == Preset::Resurrections);
}

/// The grid has as many rows as the configuration has columns, and as many
/// columns too unless the rain is volumetric with an effect stage.
pub proof fn lemma_grid_size_flat(config: MatrixConfig)
    ensures
        spec_grid_size(config).1 == config.num_columns,
        !(config.volumetric && config.effect != EffectKind::Off) ==> spec_grid_size(config).0
            == config.num_columns,
{
    assert((config.num_columns as int * 1000) / 1000 == config.num_columns as int)
        by (nonlinear_arith);
}

} // verus!
