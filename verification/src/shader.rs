//! The rain shader comes as one WGSL source; each of its three entry points
//! gets a copy in which the bindings that the stage does not use are moved
//! out of the way of the ones it does.
use vstd::prelude::*;

use crate::text::{lemma_replace_at_start, lemma_replace_keeps_prefix, occurs, replace_all, replaced};

verus! {

/// The three pipelines built from the rain shader.
#[derive(Clone, Copy, PartialEq, Eq, Debug)]
pub enum RainStage {
    Intro,
    Compute,
    Render,
}

/// The rewrites of a stage, in the order they are applied: each pair is a
/// binding declaration and the declaration it becomes.
pub open spec fn stage_replacements(stage: RainStage) -> Seq<(Seq<char>, Seq<char>)> {
    match stage {
        RainStage::Intro => seq![
            (
                "@group(0) @binding(2) var<storage, read_write> cells_RW"@,
                "@group(0) @binding(12) var<storage, read_write> cells_RW"@,
            ),
            (
                "@group(0) @binding(3) var<storage, read_write> introCells_RO"@,
                "@group(0) @binding(13) var<storage, read_write> introCells_RO"@,
            ),
            (
                "@group(0) @binding(2) var<uniform> scene"@,
                "@group(0) @binding(14) var<uniform> scene"@,
            ),
            (
                "@group(0) @binding(3) var linearSampler"@,
                "@group(0) @binding(15) var linearSampler"@,
            ),
            (
                "@group(0) @binding(4) var glyphMSDFTexture"@,
                "@group(0) @binding(16) var glyphMSDFTexture"@,
            ),
            (
                "@group(0) @binding(5) var glintMSDFTexture"@,
                "@group(0) @binding(17) var glintMSDFTexture"@,
            ),
            (
                "@group(0) @binding(6) var baseTexture"@,
                "@group(0) @binding(18) var baseTexture"@,
            ),
            (
                "@group(0) @binding(7) var glintTexture"@,
                "@group(0) @binding(19) var glintTexture"@,
            ),
            (
                "@group(0) @binding(8) var<storage, read> cells_RO"@,
                "@group(0) @binding(20) var<storage, read> cells_RO"@,
            ),
        ],
        RainStage::Compute => seq![
            (
                "@group(0) @binding(2) var<storage, read_write> introCells_RW"@,
                "@group(0) @binding(12) var<storage, read_write> introCells_RW"@,
            ),
            (
                "@group(0) @binding(2) var<uniform> scene"@,
                "@group(0) @binding(14) var<uniform> scene"@,
            ),
            (
                "@group(0) @binding(3) var linearSampler"@,
                "@group(0) @binding(15) var linearSampler"@,
            ),
            (
                "@group(0) @binding(4) var glyphMSDFTexture"@,
                "@group(0) @binding(16) var glyphMSDFTexture"@,
            ),
            (
                "@group(0) @binding(5) var glintMSDFTexture"@,
                "@group(0) @binding(17) var glintMSDFTexture"@,
            ),
            (
                "@group(0) @binding(6) var baseTexture"@,
                "@group(0) @binding(18) var baseTexture"@,
            ),
            (
                "@group(0) @binding(7) var glintTexture"@,
                "@group(0) @binding(19) var glintTexture"@,
            ),
            (
                "@group(0) @binding(8) var<storage, read> cells_RO"@,
                "@group(0) @binding(20) var<storage, read> cells_RO"@,
            ),
        ],
        RainStage::Render => seq![
            (
                "@group(0) @binding(2) var<storage, read_write> introCells_RW"@,
                "@group(0) @binding(12) var<storage, read_write> introCells_RW"@,
            ),
            (
                "@group(0) @binding(2) var<storage, read_write> cells_RW"@,
                "@group(0) @binding(13) var<storage, read_write> cells_RW"@,
            ),
            (
                "@group(0) @binding(3) var<storage, read_write> introCells_RO"@,
                "@group(0) @binding(14) var<storage, read_write> introCells_RO"@,
            ),
        ],
    }
}

/// `source` after each rewrite in `rewrites`, in order.
pub open spec fn rewritten(source: Seq<char>, rewrites: Seq<(Seq<char>, Seq<char>)>) -> Seq<char>
    decreases rewrites.len(),
{
    if rewrites.len() == 0 {
        source
    } else {
        rewritten(
            replaced(source, rewrites[0].0, rewrites[0].1),
            rewrites.drop_first(),
        )
    }
}

/// The rewrites of a stage as string slices.
pub fn stage_rewrites(stage: RainStage) -> (rewrites: Vec<(&'static str, &'static str)>)
    ensures
        rewrites@.len() == stage_replacements(stage).len(),
        forall|k: int|
            0 <= k < rewrites@.len() ==> (#[trigger] rewrites@[k]).0@ == stage_replacements(
                stage,
            )[k].0 && rewrites@[k].1@ == stage_replacements(stage)[k].1,
{
    match stage {
        RainStage::Intro => vec![
                (
                    "@group(0) @binding(2) var<storage, read_write> cells_RW",
                    "@group(0) @binding(12) var<storage, read_write> cells_RW",
                ),
                (
                    "@group(0) @binding(3) var<storage, read_write> introCells_RO",
                    "@group(0) @binding(13) var<storage, read_write> introCells_RO",
                ),
                (
                    "@group(0) @binding(2) var<uniform> scene",
                    "@group(0) @binding(14) var<uniform> scene",
                ),
                (
                    "@group(0) @binding(3) var linearSampler",
                    "@group(0) @binding(15) var linearSampler",
                ),
                (
                    "@group(0) @binding(4) var glyphMSDFTexture",
                    "@group(0) @binding(16) var glyphMSDFTexture",
                ),
                (
                    "@group(0) @binding(5) var glintMSDFTexture",
                    "@group(0) @binding(17) var glintMSDFTexture",
                ),
                (
                    "@group(0) @binding(6) var baseTexture",
                    "@group(0) @binding(18) var baseTexture",
                ),
                (
                    "@group(0) @binding(7) var glintTexture",
                    "@group(0) @binding(19) var glintTexture",
                ),
                (
                    "@group(0) @binding(8) var<storage, read> cells_RO",
                    "@group(0) @binding(20) var<storage, read> cells_RO",
                ),
            ],
        RainStage::Compute => vec![
                (
                    "@group(0) @binding(2) var<storage, read_write> introCells_RW",
                    "@group(0) @binding(12) var<storage, read_write> introCells_RW",
                ),
                (
                    "@group(0) @binding(2) var<uniform> scene",
                    "@group(0) @binding(14) var<uniform> scene",
                ),
                (
                    "@group(0) @binding(3) var linearSampler",
                    "@group(0) @binding(15) var linearSampler",
                ),
                (
                    "@group(0) @binding(4) var glyphMSDFTexture",
                    "@group(0) @binding(16) var glyphMSDFTexture",
                ),
                (
                    "@group(0) @binding(5) var glintMSDFTexture",
                    "@group(0) @binding(17) var glintMSDFTexture",
                ),
                (
                    "@group(0) @binding(6) var baseTexture",
                    "@group(0) @binding(18) var baseTexture",
                ),
                (
                    "@group(0) @binding(7) var glintTexture",
                    "@group(0) @binding(19) var glintTexture",
                ),
                (
                    "@group(0) @binding(8) var<storage, read> cells_RO",
                    "@group(0) @binding(20) var<storage, read> cells_RO",
                ),
            ],
        RainStage::Render => vec![
                (
                    "@group(0) @binding(2) var<storage, read_write> introCells_RW",
                    "@group(0) @binding(12) var<storage, read_write> introCells_RW",
                ),
                (
                    "@group(0) @binding(2) var<storage, read_write> cells_RW",
                    "@group(0) @binding(13) var<storage, read_write> cells_RW",
                ),
                (
                    "@group(0) @binding(3) var<storage, read_write> introCells_RO",
                    "@group(0) @binding(14) var<storage, read_write> introCells_RO",
                ),
            ],
    }
}

/// The shader of `stage`, made from the rain shader source.
pub fn rain_shader(stage: RainStage, source: &str) -> (shader: String)
    ensures
        shader@ == rewritten(source@, stage_replacements(stage)),
        stage == RainStage::Render ==> forall|x: Seq<char>, y: Seq<char>|
            #![trigger free_of_at(x), x + "@group(0) @binding(2) var<storage, read_write> cells_RW"@ + y]
            free_of_at(x) && source@ == x + "@group(0) @binding(2) var<storage, read_write> cells_RW"@ + y ==> shader@.take(x.len() + 56int) == x
                + "@group(0) @binding(13) var<storage, read_write> cells_RW"@,
{
    let rewrites = stage_rewrites(stage);
    let ghost all = stage_replacements(stage);
    let mut shader = String::from_str(source);
    let mut k: usize = 0;
    assert(all.skip(0) =~= all);
    while k < rewrites.len()
        invariant
            rewrites@.len() == all.len(),
            forall|j: int|
                0 <= j < rewrites@.len() ==> (#[trigger] rewrites@[j]).0@ == all[j].0
                    && rewrites@[j].1@ == all[j].1,
            0 <= k <= rewrites@.len(),
            rewritten(shader@, all.skip(k as int)) == rewritten(source@, all),
        decreases rewrites@.len() - k,
    {
        let (from, to) = rewrites[k];
        assert(all.skip(k as int).drop_first() =~= all.skip(k + 1));
        assert(all.skip(k as int)[0] == all[k as int]);
        shader = replace_all(shader.as_str(), from, to);
        k += 1;
    }
    assert(all.skip(k as int).len() == 0);
    proof {
        if stage == RainStage::Render {
            assert forall|x: Seq<char>, y: Seq<char>|
                #![trigger free_of_at(x), x + "@group(0) @binding(2) var<storage, read_write> cells_RW"@ + y]
                free_of_at(x) && source@ == x + "@group(0) @binding(2) var<storage, read_write> cells_RW"@ + y implies shader@.take(x.len() + 56int) == x
                + "@group(0) @binding(13) var<storage, read_write> cells_RW"@ by {
                lemma_render_moves_cells(x, y);
            }
        }
    }
    shader
}

/// Whether no character of `text` is an `@`, so that no binding
/// declaration starts in it.
pub open spec fn free_of_at(text: Seq<char>) -> bool {
    forall|i: int| 0 <= i < text.len() ==> text[i] != '@'
}

/// Where the binding declarations that the render stage deals with hold
/// an `@`, and the characters that tell them apart.
proof fn lemma_declaration_marks()
    ensures
        "@group(0) @binding(2) var<storage, read_write> cells_RW"@.len() == 55,
        "@group(0) @binding(2) var<storage, read_write> cells_RW"@[0] == '@' && "@group(0) @binding(2) var<storage, read_write> cells_RW"@[10] == '@' && "@group(0) @binding(2) var<storage, read_write> cells_RW"@[11] == 'b' && "@group(0) @binding(2) var<storage, read_write> cells_RW"@[47] == 'c',
        forall|j: int| 0 <= j < 55 && j != 0 && j != 10 ==> "@group(0) @binding(2) var<storage, read_write> cells_RW"@[j] != '@',
        "@group(0) @binding(13) var<storage, read_write> cells_RW"@.len() == 56,
        "@group(0) @binding(13) var<storage, read_write> cells_RW"@[0] == '@' && "@group(0) @binding(13) var<storage, read_write> cells_RW"@[10] == '@' && "@group(0) @binding(13) var<storage, read_write> cells_RW"@[11] == 'b' && "@group(0) @binding(13) var<storage, read_write> cells_RW"@[19] == '1',
        forall|j: int| 0 <= j < 56 && j != 0 && j != 10 ==> "@group(0) @binding(13) var<storage, read_write> cells_RW"@[j] != '@',
        "@group(0) @binding(2) var<storage, read_write> introCells_RW"@.len() == 60,
        "@group(0) @binding(2) var<storage, read_write> introCells_RW"@[0] == '@' && "@group(0) @binding(2) var<storage, read_write> introCells_RW"@[1] == 'g' && "@group(0) @binding(2) var<storage, read_write> introCells_RW"@[47] == 'i',
        "@group(0) @binding(3) var<storage, read_write> introCells_RO"@.len() == 60,
        "@group(0) @binding(3) var<storage, read_write> introCells_RO"@[0] == '@' && "@group(0) @binding(3) var<storage, read_write> introCells_RO"@[1] == 'g' && "@group(0) @binding(3) var<storage, read_write> introCells_RO"@[19] == '3',
{
    reveal_strlit("@group(0) @binding(2) var<storage, read_write> cells_RW");
    reveal_strlit("@group(0) @binding(13) var<storage, read_write> cells_RW");
    reveal_strlit("@group(0) @binding(2) var<storage, read_write> introCells_RW");
    reveal_strlit("@group(0) @binding(3) var<storage, read_write> introCells_RO");
}

/// The render stage gives the cells buffer, declared at binding 2 (where
/// the render stage's scene block sits), binding 13 instead: in every
/// shader where that declaration follows text without a binding
/// declaration, the rewritten shader has that text followed by the
/// declaration at binding 13.
pub proof fn lemma_render_moves_cells(x: Seq<char>, y: Seq<char>)
    requires
        free_of_at(x),
    ensures
        rewritten(x + "@group(0) @binding(2) var<storage, read_write> cells_RW"@ + y, stage_replacements(RainStage::Render)).len() >= x.len() + 56,
        rewritten(x + "@group(0) @binding(2) var<storage, read_write> cells_RW"@ + y, stage_replacements(RainStage::Render)).take(x.len() + 56int) == x
            + "@group(0) @binding(13) var<storage, read_write> cells_RW"@,
{
    lemma_declaration_marks();
    reveal_strlit("@group(0) @binding(2) var<storage, read_write> cells_RW");
    reveal_strlit("@group(0) @binding(13) var<storage, read_write> cells_RW");
    reveal_strlit("@group(0) @binding(2) var<storage, read_write> introCells_RW");
    reveal_strlit("@group(0) @binding(12) var<storage, read_write> introCells_RW");
    reveal_strlit("@group(0) @binding(3) var<storage, read_write> introCells_RO");
    reveal_strlit("@group(0) @binding(14) var<storage, read_write> introCells_RO");
    let p = "@group(0) @binding(2) var<storage, read_write> cells_RW"@;
    let q = "@group(0) @binding(13) var<storage, read_write> cells_RW"@;
    let a = "@group(0) @binding(2) var<storage, read_write> introCells_RW"@;
    let r = "@group(0) @binding(3) var<storage, read_write> introCells_RO"@;
    let rs = stage_replacements(RainStage::Render);
    assert(rs.len() == 3);
    assert(rs[0].0 == a);
    assert(rs[1] == (p, q));
    assert(rs[2].0 == r);
    // The introCells_RW rewrite keeps the text and the declaration.
    let s = x + p + y;
    assert(s =~= (x + p) + y);
    assert forall|k: int| 0 <= k < (x + p).len() implies !#[trigger] occurs((x + p) + y, a, k) by {
        if occurs(s, a, k) {
            let sub = s.subrange(k, k + a.len());
            assert(sub[0] == s[k]);
            if k < x.len() {
                assert(s[k] == x[k]);
            } else {
                let j = k - x.len();
                assert(s[k] == p[j]);
                if j == 0 {
                    assert(sub[47] == s[k + 47]);
                    assert(s[k + 47] == p[47]);
                } else if j == 10 {
                    assert(sub[1] == s[k + 1]);
                    assert(s[k + 1] == p[11]);
                }
            }
        }
    }
    lemma_replace_keeps_prefix(x + p, y, a, rs[0].1);
    let y1 = replaced(y, a, rs[0].1);
    let t = replaced(s, a, rs[0].1);
    assert(t == (x + p) + y1);
    // The cells_RW rewrite moves the declaration.
    assert(t =~= x + (p + y1));
    assert forall|k: int| 0 <= k < x.len() implies !#[trigger] occurs(x + (p + y1), p, k) by {
        if occurs(x + (p + y1), p, k) {
            assert((x + (p + y1)).subrange(k, k + p.len())[0] == x[k]);
        }
    }
    lemma_replace_keeps_prefix(x, p + y1, p, q);
    lemma_replace_at_start(p, y1, q);
    let y2 = replaced(y1, p, q);
    let u = replaced(t, p, q);
    assert(u == x + (q + y2));
    // The introCells_RO rewrite keeps the text and the moved declaration.
    assert(u =~= (x + q) + y2);
    assert forall|k: int| 0 <= k < (x + q).len() implies !#[trigger] occurs((x + q) + y2, r, k) by {
        if occurs(u, r, k) {
            let sub = u.subrange(k, k + r.len());
            assert(sub[0] == u[k]);
            if k < x.len() {
                assert(u[k] == x[k]);
            } else {
                let j = k - x.len();
                assert(u[k] == q[j]);
                if j == 0 {
                    assert(sub[19] == u[k + 19]);
                    assert(u[k + 19] == q[19]);
                } else if j == 10 {
                    assert(sub[1] == u[k + 1]);
                    assert(u[k + 1] == q[11]);
                }
            }
        }
    }
    lemma_replace_keeps_prefix(x + q, y2, r, rs[2].1);
    let w = replaced(u, r, rs[2].1);
    assert(w == (x + q) + replaced(y2, r, rs[2].1));
    assert(rewritten(s, rs) == rewritten(t, rs.drop_first()));
    assert(rs.drop_first()[0] == rs[1]);
    assert(rewritten(t, rs.drop_first()) == rewritten(u, rs.drop_first().drop_first()));
    assert(rs.drop_first().drop_first()[0] == rs[2]);
    assert(rs.drop_first().drop_first().drop_first().len() == 0);
    assert(rewritten(u, rs.drop_first().drop_first()) == rewritten(
        w,
        rs.drop_first().drop_first().drop_first(),
    ));
    assert(rewritten(s, rs) == w);
    assert(w.take(x.len() + 56int) =~= x + q);
}

} // verus!
