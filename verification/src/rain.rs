//! The shape of the rain pass: how many cells and quads it simulates and
//! draws, how large its storage buffers are, how its compute dispatches
//! cover the grid, which camera looks at it, and the integer switches that
//! its shaders read from the configuration.
use vstd::prelude::*;

use crate::bloom::workgroup_count;
use crate::config::{
    EffectKind, MatrixConfig, ripple_code, ripple_shader_value, spec_effective_density,
    spec_grid_size,
};

verus! {

/// Vertices of the two triangles of one quad.
pub const VERTICES_PER_QUAD: u32 = 6;

/// Bytes of one intro cell in the intro storage buffer.
pub const INTRO_CELL_BYTES: u64 = 16;

/// Bytes of one cell in the cell storage buffer.
pub const CELL_BYTES: u64 = 48;

/// Counts and sizes that the rain pass is built with.
#[derive(Clone, Copy, PartialEq, Eq, Debug)]
pub struct RainLayout {
    pub grid_size: [u32; 2],
    pub num_cells: u32,
    /// One quad per cell for a volumetric rain, one screen quad otherwise.
    pub num_quads: u32,
    pub intro_cells_bytes: u64,
    pub cells_bytes: u64,
    /// The intro dispatch covers one row of the grid.
    pub intro_workgroups: [u32; 3],
    /// The main dispatch covers the whole grid.
    pub main_workgroups: [u32; 3],
    pub vertex_count: u32,
}

/// Whether the cell count, and for a volumetric rain the vertex count,
/// fit in 32 bits.
pub open spec fn layout_fits(config: MatrixConfig) -> bool {
    let g = spec_grid_size(config);
    &&& g.0 * g.1 <= u32::MAX
    &&& config.volumetric ==> VERTICES_PER_QUAD * (g.0 * g.1) <= u32::MAX
}

/// The layout of the rain pass for a configuration.
pub open spec fn spec_rain_layout(config: MatrixConfig) -> RainLayout {
    let g = spec_grid_size(config);
    let cells = g.0 * g.1;
    let quads = if config.volumetric {
        cells
    } else {
        1
    };
    RainLayout {
        grid_size: [g.0, g.1],
        num_cells: cells as u32,
        num_quads: quads as u32,
        intro_cells_bytes: (g.0 * INTRO_CELL_BYTES) as u64,
        cells_bytes: (cells * CELL_BYTES) as u64,
        intro_workgroups: [((g.0 + 31) / 32) as u32, 1, 1],
        main_workgroups: [((g.0 + 31) / 32) as u32, g.1, 1],
        vertex_count: (VERTICES_PER_QUAD * quads) as u32,
    }
}

/// The counts and sizes the rain pass is built with.
pub fn rain_layout(config: &MatrixConfig) -> (layout: RainLayout)
    requires
        layout_fits(*config),
    ensures
        layout == spec_rain_layout(*config),
        layout.grid_size[0] == spec_grid_size(*config).0,
        layout.grid_size[1] == spec_grid_size(*config).1,
        layout.num_cells == layout.grid_size[0] * layout.grid_size[1],
        layout.intro_cells_bytes == layout.grid_size[0] * INTRO_CELL_BYTES,
        layout.cells_bytes == layout.num_cells * CELL_BYTES,
        layout.num_quads == (if config.volumetric {
            layout.num_cells
        } else {
            1
        }),
        layout.vertex_count == VERTICES_PER_QUAD * layout.num_quads,
{
    let grid_size = config.grid_size();
    let num_cells = grid_size[0] * grid_size[1];
    let num_quads = if config.volumetric {
        num_cells
    } else {
        1
    };
    let main_workgroups = workgroup_count(grid_size);
    let intro_workgroups = workgroup_count([grid_size[0], 1]);
    let columns = grid_size[0] as u64;
    let cells = num_cells as u64;
    assert(columns * 16 <= u64::MAX) by (nonlinear_arith)
        requires
            columns <= u32::MAX,
    ;
    assert(cells * 48 <= u64::MAX) by (nonlinear_arith)
        requires
            cells <= u32::MAX,
    ;
    proof {
        let g = spec_grid_size(*config);
        assert(grid_size =~= [g.0, g.1]);
        assert(intro_workgroups =~= [((g.0 + 31) / 32) as u32, 1, 1]);
        assert(main_workgroups =~= [((g.0 + 31) / 32) as u32, g.1, 1]);
    }
    RainLayout {
        grid_size,
        num_cells,
        num_quads,
        intro_cells_bytes: columns * INTRO_CELL_BYTES,
        cells_bytes: cells * CELL_BYTES,
        intro_workgroups,
        main_workgroups,
        vertex_count: VERTICES_PER_QUAD * num_quads,
    }
}

/// The integer and on/off values of the rain shaders' configuration block
/// (switches are 1 for on and 0 for off).
#[derive(Clone, Copy, PartialEq, Eq, Debug)]
pub struct RainSwitches {
    pub grid_size: [u32; 2],
    pub density: i32,
    pub glyph_sequence_length: u32,
    pub glyph_texture_grid_size: (i32, i32),
    pub show_debug_view: i32,
    pub has_thunder: i32,
    /// The ripple's shader code, or -1 for no ripple.
    pub ripple_type: i32,
    pub has_base_texture: i32,
    pub has_glint_texture: i32,
    pub is_polar: i32,
    pub volumetric: i32,
    pub isolate_cursor: i32,
    pub isolate_glint: i32,
    pub loops: i32,
    pub skip_intro: i32,
}

/// 1 for on, 0 for off.
pub open spec fn flag(on: bool) -> i32 {
    if on {
        1
    } else {
        0
    }
}

/// The switches that a configuration hands to the rain shaders.
pub open spec fn spec_rain_switches(config: MatrixConfig) -> RainSwitches {
    let g = spec_grid_size(config);
    RainSwitches {
        grid_size: [g.0, g.1],
        density: spec_effective_density(config),
        glyph_sequence_length: config.glyph_sequence_length,
        glyph_texture_grid_size: config.glyph_texture_grid_size,
        show_debug_view: flag(config.effect == EffectKind::Off),
        has_thunder: flag(config.has_thunder),
        ripple_type: ripple_code(config.ripple_type),
        has_base_texture: flag(config.base_texture is Some),
        has_glint_texture: flag(config.glint_texture is Some),
        is_polar: flag(config.is_polar),
        volumetric: flag(config.volumetric),
        isolate_cursor: flag(config.isolate_cursor),
        isolate_glint: flag(config.isolate_glint),
        loops: flag(config.loops),
        skip_intro: flag(config.skip_intro),
    }
}

fn flag_of(on: bool) -> (value: i32)
    ensures
        value == flag(on),
{
    if on {
        1
    } else {
        0
    }
}

/// The switches that a configuration hands to the rain shaders.
pub fn rain_switches(config: &MatrixConfig) -> (switches: RainSwitches)
    ensures
        switches == spec_rain_switches(*config),
{
    let grid_size = config.grid_size();
    proof {
        let g = spec_grid_size(*config);
        assert(grid_size =~= [g.0, g.1]);
    }
    RainSwitches {
        grid_size,
        density: config.effective_density(),
        glyph_sequence_length: config.glyph_sequence_length,
        glyph_texture_grid_size: config.glyph_texture_grid_size,
        show_debug_view: flag_of(config.effect.is_none()),
        has_thunder: flag_of(config.has_thunder),
        ripple_type: ripple_shader_value(config.ripple_type),
        has_base_texture: flag_of(config.base_texture.is_some()),
        has_glint_texture: flag_of(config.glint_texture.is_some()),
        is_polar: flag_of(config.is_polar),
        volumetric: flag_of(config.volumetric),
        isolate_cursor: flag_of(config.isolate_cursor),
        isolate_glint: flag_of(config.isolate_glint),
        loops: flag_of(config.loops),
        skip_intro: flag_of(config.skip_intro),
    }
}

/// How the rain is looked at.
#[derive(Clone, Copy, PartialEq, Eq, Debug)]
pub enum RainCamera {
    /// An orthographic camera tilted over a volumetric rain; `wide` when the
    /// screen is wider than it is tall.
    Isometric { wide: bool },
    /// A perspective camera with a right-angle field of view.
    Perspective,
}

/// The camera for a rain: isometric only for a volumetric, isometric rain.
pub open spec fn spec_rain_camera(volumetric: bool, isometric: bool, size: [u32; 2]) -> RainCamera {
    if volumetric && isometric {
        RainCamera::Isometric { wide: size[0] > size[1] }
    } else {
        RainCamera::Perspective
    }
}

/// The camera for a rain drawn on a screen of `size` pixels.
pub fn rain_camera(volumetric: bool, isometric: bool, size: [u32; 2]) -> (camera: RainCamera)
    ensures
        camera == spec_rain_camera(volumetric, isometric, size),
{
    if volumetric && isometric {
        RainCamera::Isometric { wide: size[0] > size[1] }
    } else {
        RainCamera::Perspective
    }
}

/// The buffers hold one intro cell for every column of the grid and one
/// cell for every cell of it; the grid is the configuration's grid; there
/// is one quad per cell for a volumetric rain and one otherwise, six
/// vertices each.
pub proof fn lemma_rain_layout_sizes(config: MatrixConfig)
    requires
        layout_fits(config),
    ensures
        spec_rain_layout(config).grid_size[0] == spec_grid_size(config).0,
        spec_rain_layout(config).grid_size[1] == spec_grid_size(config).1,
        spec_rain_layout(config).num_cells == spec_grid_size(config).0 * spec_grid_size(config).1,
        spec_rain_layout(config).intro_cells_bytes == spec_grid_size(config).0 * INTRO_CELL_BYTES,
        spec_rain_layout(config).cells_bytes == spec_grid_size(config).0 * spec_grid_size(config).1
            * CELL_BYTES,
        spec_rain_layout(config).num_quads == (if config.volumetric {
            spec_grid_size(config).0 * spec_grid_size(config).1
        } else {
            1
        }),
        spec_rain_layout(config).vertex_count == VERTICES_PER_QUAD * spec_rain_layout(
            config,
        ).num_quads,
{
    let g = spec_grid_size(config);
    assert(g.0 * INTRO_CELL_BYTES <= u64::MAX) by (nonlinear_arith)
        requires
            g.0 <= u32::MAX,
    ;
    assert(g.0 * g.1 * CELL_BYTES <= u64::MAX) by (nonlinear_arith)
        requires
            g.0 * g.1 <= u32::MAX,
    ;
    assert(g.0 * g.1 >= 0) by (nonlinear_arith)
        requires
            g.0 >= 0,
            g.1 >= 0,
    ;
}

/// A volumetric rain draws one quad per cell and a flat rain a single
/// quad; either way the vertex count is six per quad and the dispatches
/// cover every column of the grid.
pub proof fn lemma_rain_layout_covers(config: MatrixConfig)
    requires
        layout_fits(config),
    ensures
        spec_rain_layout(config).vertex_count == VERTICES_PER_QUAD
            * spec_rain_layout(config).num_quads,
        config.volumetric ==> spec_rain_layout(config).num_quads == spec_rain_layout(
            config,
        ).num_cells,
        !config.volumetric ==> spec_rain_layout(config).num_quads == 1,
        spec_rain_layout(config).main_workgroups[0] * 32 >= spec_rain_layout(config).grid_size[0],
        spec_rain_layout(config).main_workgroups[0] * 32 < spec_rain_layout(config).grid_size[0]
            + 32,
{
    let g = spec_grid_size(config);
    assert(g.0 * g.1 >= 0) by (nonlinear_arith)
        requires
            g.0 >= 0,
            g.1 >= 0,
    ;
}

} // verus!
