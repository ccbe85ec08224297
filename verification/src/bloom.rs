//! Sizes of the bloom pass: the scaled-down copy of the screen that it
//! blurs, the pyramid of ever smaller blur levels, and the compute
//! dispatches that cover them.
use vstd::prelude::*;
use vstd::arithmetic::power2::{pow2, lemma_pow2_unfold, lemma_pow2_pos, lemma_pow2_strictly_increases, lemma2_to64};
use vstd::arithmetic::div_mod::lemma_div_denominator;

verus! {

/// Number of levels of the blur pyramid.
pub const PYRAMID_HEIGHT: usize = 4;

/// Threads per workgroup along the first axis of the compute shaders.
pub const WORKGROUP_WIDTH: u32 = 32;

/// A dimension divided by `2^level`, but never less than one.
pub open spec fn level_extent(extent: u32, level: nat) -> int {
    let shrunk = extent as int / pow2(level) as int;
    if shrunk < 1 {
        1
    } else {
        shrunk
    }
}

/// `2^level`.
fn power_of_two(level: usize) -> (scale: u32)
    requires
        level < 32,
    ensures
        scale as nat == pow2(level as nat),
{
    let mut scale: u32 = 1;
    let mut i: usize = 0;
    proof {
        lemma2_to64();
    }
    while i < level
        invariant
            0 <= i <= level < 32,
            scale as nat == pow2(i as nat),
            pow2(32) == 0x1_0000_0000,
        decreases level - i,
    {
        proof {
            lemma_pow2_unfold((i + 1) as nat);
            lemma_pow2_strictly_increases((i + 1) as nat, 32);
        }
        scale = scale * 2;
        i += 1;
    }
    scale
}

/// Width and height of level `level` of a pyramid whose base is `size`:
/// each dimension is divided by `2^level`, and kept at one or more.
pub fn bloom_level_size(size: [u32; 2], level: usize) -> (level_size: [u32; 2])
    requires
        level < 32,
    ensures
        level_size[0] == level_extent(size[0], level as nat),
        level_size[1] == level_extent(size[1], level as nat),
{
    let scale = power_of_two(level);
    proof {
        lemma_pow2_pos(level as nat);
    }
    let width = size[0] / scale;
    let height = size[1] / scale;
    [if width < 1 { 1 } else { width }, if height < 1 { 1 } else { height }]
}

/// The sizes of the levels of a pyramid whose base is `size`, from the
/// largest down.
pub fn pyramid_sizes(size: [u32; 2]) -> (sizes: Vec<[u32; 2]>)
    ensures
        sizes@.len() == PYRAMID_HEIGHT,
        forall|level: int|
            0 <= level < PYRAMID_HEIGHT ==> #[trigger] sizes@[level][0] == level_extent(
                size[0],
                level as nat,
            ) && sizes@[level][1] == level_extent(size[1], level as nat),
{
    let mut sizes: Vec<[u32; 2]> = Vec::new();
    let mut level: usize = 0;
    while level < PYRAMID_HEIGHT
        invariant
            0 <= level <= PYRAMID_HEIGHT,
            sizes@.len() == level,
            forall|l: int|
                0 <= l < level ==> #[trigger] sizes@[l][0] == level_extent(size[0], l as nat)
                    && sizes@[l][1] == level_extent(size[1], l as nat),
        decreases PYRAMID_HEIGHT - level,
    {
        sizes.push(bloom_level_size(size, level));
        level += 1;
    }
    sizes
}

/// The size of the blurred copy of a screen of `screen` pixels, for a
/// bloom size in thousandths: each dimension scaled, rounded down, kept at
/// one or more (and at most `u32::MAX`).
pub open spec fn scaled_extent(extent: u32, bloom_size: i32) -> int {
    let scaled = extent as int * bloom_size as int / 1000;
    if scaled < 1 {
        1
    } else if scaled > u32::MAX {
        u32::MAX as int
    } else {
        scaled
    }
}

fn scale_extent(extent: u32, bloom_size: i32) -> (scaled: u32)
    ensures
        scaled == scaled_extent(extent, bloom_size),
{
    if bloom_size <= 0 {
        assert(extent as int * bloom_size as int <= 0) by (nonlinear_arith)
            requires
                bloom_size <= 0,
        ;
        return 1;
    }
    let wide = extent as u64;
    let factor = bloom_size as u64;
    assert(wide * factor <= u32::MAX as u64 * i32::MAX as u64) by (nonlinear_arith)
        requires
            wide <= u32::MAX,
            factor <= i32::MAX,
    ;
    let product = wide * factor;
    let scaled = product / 1000;
    if scaled < 1 {
        1
    } else if scaled > u32::MAX as u64 {
        u32::MAX
    } else {
        scaled as u32
    }
}

/// The size of the blurred copy of the screen.
pub fn bloom_scaled_size(screen: [u32; 2], bloom_size: i32) -> (scaled: [u32; 2])
    ensures
        scaled[0] == scaled_extent(screen[0], bloom_size),
        scaled[1] == scaled_extent(screen[1], bloom_size),
{
    [scale_extent(screen[0], bloom_size), scale_extent(screen[1], bloom_size)]
}

/// Whether the bloom pass runs: only with a positive size and strength.
pub fn bloom_enabled(bloom_size: i32, bloom_strength: i32) -> (enabled: bool)
    ensures
        enabled == (bloom_size > 0 && bloom_strength > 0),
{
    bloom_size > 0 && bloom_strength > 0
}

/// The workgroups that cover an image of `size` pixels: one per 32 pixels
/// of a row (rounded up), one per row.
pub fn workgroup_count(size: [u32; 2]) -> (count: [u32; 3])
    ensures
        count[0] as int == (size[0] as int + 31) / 32,
        count[1] == size[1],
        count[2] == 1,
{
    let whole = size[0] / WORKGROUP_WIDTH;
    let rest = size[0] % WORKGROUP_WIDTH;
    [if rest == 0 { whole } else { whole + 1 }, size[1], 1]
}

/// Each level of the pyramid halves the one above it (rounding down, but
/// never below one), and every level is at least one and at most the base
/// (or one).
pub proof fn lemma_level_halves(extent: u32, level: nat)
    ensures
        level_extent(extent, level + 1) == (if level_extent(extent, level) / 2 < 1 {
            1
        } else {
            level_extent(extent, level) / 2
        }),
        1 <= level_extent(extent, level),
        level_extent(extent, level) <= (if extent < 1 { 1 } else { extent as int }),
        level_extent(extent, 0) == (if extent < 1 { 1 } else { extent as int }),
{
    lemma_pow2_pos(level);
    lemma_pow2_unfold(level + 1);
    lemma_div_denominator(extent as int, pow2(level) as int, 2);
    assert(pow2(0) == 1) by {
        lemma2_to64();
    }
    assert(extent as int / pow2(level) as int <= extent as int) by (nonlinear_arith)
        requires
            pow2(level) > 0,
            extent >= 0,
    ;
}

} // verus!
