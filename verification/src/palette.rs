//! Layout of the 512-colour gradient that the palette effect looks colours
//! up in. The stops of a palette are placed on the gradient by position
//! (a stable sort), the ends are pinned to the first and last stop, and
//! every slot of the gradient is assigned the pair of stops it blends and
//! how far along it is; the renderer does the blending itself.
use vstd::prelude::*;

use crate::config::PaletteEntry;

verus! {

/// Number of colours in the gradient.
pub const PALETTE_SIZE: usize = 512;

/// The slot of the gradient that a stop position (thousandths, clamped to
/// 0..=1000) falls on: the position scaled to 0..=511, rounded down.
pub open spec fn spec_palette_index(at: i32) -> int {
    let clamped: int = if at < 0 {
        0
    } else if at > 1000 {
        1000
    } else {
        at as int
    };
    clamped * 511 / 1000
}

pub fn palette_index(at: i32) -> (index: usize)
    ensures
        index == spec_palette_index(at),
        index < PALETTE_SIZE,
{
    let clamped: usize = if at < 0 {
        0
    } else if at > 1000 {
        1000
    } else {
        at as usize
    };
    clamped * 511 / 1000
}

/// The gradient slot of every stop, in the order of the stops.
pub open spec fn stop_slots(entries: Seq<PaletteEntry>) -> Seq<int> {
    Seq::new(entries.len(), |i: int| spec_palette_index(entries[i].at))
}

/// Whether `a` comes before `b` when stops are ordered by slot, ties by
/// their order in the palette.
pub open spec fn before(a: (usize, usize), b: (usize, usize)) -> bool {
    a.1 < b.1 || (a.1 == b.1 && a.0 < b.0)
}

/// Whether some point of `points` belongs to stop `stop`.
pub open spec fn lists(points: Seq<(usize, usize)>, stop: int) -> bool {
    exists|k: int| 0 <= k < points.len() && (#[trigger] points[k]).0 == stop
}

/// `points` lists every stop of `entries` once, as (stop, slot), in the
/// order of a stable sort by slot.
pub open spec fn sorted_stops(entries: Seq<PaletteEntry>, points: Seq<(usize, usize)>) -> bool {
    &&& points.len() == entries.len()
    &&& forall|k: int|
        0 <= k < points.len() ==> (#[trigger] points[k]).0 < entries.len() && points[k].1
            == stop_slots(entries)[points[k].0 as int]
    &&& forall|k1: int, k2: int|
        0 <= k1 < k2 < points.len() ==> before(#[trigger] points[k1], #[trigger] points[k2])
    &&& forall|i: int| 0 <= i < entries.len() ==> #[trigger] lists(points, i)
}

/// Number of values of `slots` below `bound`.
pub open spec fn count_below(slots: Seq<int>, bound: int) -> nat
    decreases slots.len(),
{
    if slots.len() == 0 {
        0
    } else {
        count_below(slots.drop_last(), bound) + if slots.last() < bound {
            1nat
        } else {
            0nat
        }
    }
}

/// Number of values of `slots` equal to `value`.
pub open spec fn count_equal(slots: Seq<int>, value: int) -> nat
    decreases slots.len(),
{
    if slots.len() == 0 {
        0
    } else {
        count_equal(slots.drop_last(), value) + if slots.last() == value {
            1nat
        } else {
            0nat
        }
    }
}

proof fn lemma_count_step(slots: Seq<int>, bound: int)
    ensures
        count_below(slots, bound + 1) == count_below(slots, bound) + count_equal(slots, bound),
    decreases slots.len(),
{
    if slots.len() > 0 {
        lemma_count_step(slots.drop_last(), bound);
    }
}

proof fn lemma_count_all(slots: Seq<int>, bound: int)
    requires
        forall|i: int| 0 <= i < slots.len() ==> slots[i] < bound,
    ensures
        count_below(slots, bound) == slots.len(),
    decreases slots.len(),
{
    if slots.len() > 0 {
        lemma_count_all(slots.drop_last(), bound);
    }
}

proof fn lemma_count_none(slots: Seq<int>, bound: int)
    requires
        forall|i: int| 0 <= i < slots.len() ==> slots[i] >= bound,
    ensures
        count_below(slots, bound) == 0,
    decreases slots.len(),
{
    if slots.len() > 0 {
        lemma_count_none(slots.drop_last(), bound);
    }
}

/// The stops of a palette as (stop, slot) pairs, stably sorted by slot.
pub fn sort_stops(entries: &[PaletteEntry]) -> (points: Vec<(usize, usize)>)
    ensures
        sorted_stops(entries@, points@),
{
    let n = entries.len();
    let ghost slots = stop_slots(entries@);
    let mut keys: Vec<usize> = Vec::new();
    let mut i: usize = 0;
    while i < n
        invariant
            n == entries@.len(),
            slots == stop_slots(entries@),
            0 <= i <= n,
            keys@.len() == i,
            forall|j: int| 0 <= j < i ==> #[trigger] keys@[j] == slots[j],
        decreases n - i,
    {
        keys.push(palette_index(entries[i].at));
        i += 1;
    }
    let mut points: Vec<(usize, usize)> = Vec::new();
    let mut slot: usize = 0;
    proof {
        lemma_count_none(slots, 0);
    }
    while slot < PALETTE_SIZE
        invariant
            n == entries@.len(),
            slots == stop_slots(entries@),
            keys@.len() == n,
            forall|j: int| 0 <= j < n ==> #[trigger] keys@[j] == slots[j],
            0 <= slot <= PALETTE_SIZE,
            points@.len() == count_below(slots, slot as int),
            forall|k: int|
                0 <= k < points@.len() ==> (#[trigger] points@[k]).0 < n && points@[k].1
                    == slots[points@[k].0 as int] && points@[k].1 < slot,
            forall|k1: int, k2: int|
                0 <= k1 < k2 < points@.len() ==> before(
                    #[trigger] points@[k1],
                    #[trigger] points@[k2],
                ),
            forall|j: int| 0 <= j < n && slots[j] < slot ==> #[trigger] lists(points@, j),
        decreases PALETTE_SIZE - slot,
    {
        let mut j: usize = 0;
        let ghost start = points@.len();
        while j < n
            invariant
                n == entries@.len(),
                slots == stop_slots(entries@),
                keys@.len() == n,
                forall|q: int| 0 <= q < n ==> #[trigger] keys@[q] == slots[q],
                0 <= slot < PALETTE_SIZE,
                0 <= j <= n,
                start <= points@.len(),
                points@.len() == count_below(slots, slot as int) + count_equal(
                    slots.take(j as int),
                    slot as int,
                ),
                forall|k: int|
                    0 <= k < points@.len() ==> (#[trigger] points@[k]).0 < n && points@[k].1
                        == slots[points@[k].0 as int] && points@[k].1 <= slot,
                forall|k: int|
                    start <= k < points@.len() ==> (#[trigger] points@[k]).1 == slot
                        && points@[k].0 < j,
                forall|k: int| 0 <= k < start ==> (#[trigger] points@[k]).1 < slot,
                forall|k1: int, k2: int|
                    0 <= k1 < k2 < points@.len() ==> before(
                        #[trigger] points@[k1],
                        #[trigger] points@[k2],
                    ),
                forall|q: int|
                    0 <= q < n && (slots[q] < slot || (slots[q] == slot && q < j))
                        ==> #[trigger] lists(points@, q),
            decreases n - j,
        {
            assert(slots.take(j + 1).drop_last() =~= slots.take(j as int));
            if keys[j] == slot {
                let ghost old_points = points@;
                points.push((j, slot));
                assert forall|q: int|
                    0 <= q < n && (slots[q] < slot || (slots[q] == slot && q < j + 1)) implies #[trigger] lists(
                    points@,
                    q,
                ) by {
                    if q == j {
                        assert(points@[points@.len() - 1].0 == q);
                    } else {
                        assert(lists(old_points, q));
                        let k = choose|k: int|
                            0 <= k < old_points.len() && (#[trigger] old_points[k]).0 == q;
                        assert(points@[k].0 == q);
                    }
                }
            }
            j += 1;
        }
        proof {
            assert(slots.take(n as int) =~= slots);
            lemma_count_step(slots, slot as int);
        }
        slot += 1;
    }
    proof {
        lemma_count_all(slots, PALETTE_SIZE as int);
    }
    points
}

/// The first `k + 1` points of two stable sorts of the same stops agree.
proof fn lemma_sorted_prefix_agrees(
    entries: Seq<PaletteEntry>,
    p1: Seq<(usize, usize)>,
    p2: Seq<(usize, usize)>,
    k: int,
)
    requires
        sorted_stops(entries, p1),
        sorted_stops(entries, p2),
        0 <= k < p1.len(),
    ensures
        forall|j: int| 0 <= j <= k ==> #[trigger] p1[j] == p2[j],
    decreases k,
{
    if k > 0 {
        lemma_sorted_prefix_agrees(entries, p1, p2, k - 1);
    }
    let a = p1[k];
    let b = p2[k];
    assert(lists(p2, a.0 as int));
    let m = choose|m: int| 0 <= m < p2.len() && (#[trigger] p2[m]).0 == a.0;
    assert(p2[m] == a);
    if m < k {
        assert(p1[m] == p2[m]);
        assert(before(p1[m], p1[k]));
    }
    assert(lists(p1, b.0 as int));
    let n = choose|n: int| 0 <= n < p1.len() && (#[trigger] p1[n]).0 == b.0;
    assert(p1[n] == b);
    if n < k {
        assert(p1[n] == p2[n]);
        assert(before(p2[n], p2[k]));
    }
    if a != b {
        assert(m != k);
        assert(n != k);
        assert(before(p2[k], p2[m]));
        assert(before(p1[k], p1[n]));
    }
}

/// A stable sort of the stops by slot is unique: any two lists that sort
/// the same stops are the same list.
pub proof fn lemma_sorted_stops_unique(
    entries: Seq<PaletteEntry>,
    p1: Seq<(usize, usize)>,
    p2: Seq<(usize, usize)>,
)
    requires
        sorted_stops(entries, p1),
        sorted_stops(entries, p2),
    ensures
        p1 == p2,
{
    if p1.len() > 0 {
        lemma_sorted_prefix_agrees(entries, p1, p2, p1.len() - 1);
    }
    assert(p1 =~= p2);
}

/// The points of the gradient: the sorted stops, with the first stop
/// repeated at slot 0 and the last at slot 511.
pub open spec fn gradient_points(entries: Seq<PaletteEntry>, sorted: Seq<(usize, usize)>) -> Seq<
    (usize, usize),
> {
    seq![(sorted[0].0, 0usize)] + sorted + seq![(sorted.last().0, 511usize)]
}

/// The points of the gradient of a palette of at least one stop.
pub fn gradient_point_list(entries: &[PaletteEntry]) -> (points: Vec<(usize, usize)>)
    requires
        entries@.len() > 0,
    ensures
        exists|sorted: Seq<(usize, usize)>|
            sorted_stops(entries@, sorted) && points@ == gradient_points(entries@, sorted),
        gradient_shape(points@, entries@.len()),
{
    let sorted = sort_stops(entries);
    let first = sorted[0].0;
    let last = sorted[sorted.len() - 1].0;
    let mut points: Vec<(usize, usize)> = Vec::new();
    points.push((first, 0));
    let mut k: usize = 0;
    while k < sorted.len()
        invariant
            0 <= k <= sorted@.len(),
            points@ == seq![(first, 0usize)] + sorted@.take(k as int),
        decreases sorted@.len() - k,
    {
        points.push(sorted[k]);
        k += 1;
        assert(points@ =~= seq![(first, 0usize)] + sorted@.take(k as int));
    }
    points.push((last, 511));
    assert(sorted@.take(sorted@.len() as int) =~= sorted@);
    assert(points@ =~= gradient_points(entries@, sorted@));
    assert forall|k1: int, k2: int| 0 <= k1 <= k2 < points@.len() implies #[trigger] points@[k1].1
        <= #[trigger] points@[k2].1 by {
        if 0 < k1 && k2 < points@.len() - 1 && k1 < k2 {
            assert(before(sorted@[k1 - 1], sorted@[k2 - 1]));
        }
        if 0 < k1 && k1 < points@.len() - 1 {
            assert(sorted@[k1 - 1].1 == stop_slots(entries@)[sorted@[k1 - 1].0 as int]);
        }
        if 0 < k2 && k2 < points@.len() - 1 {
            assert(sorted@[k2 - 1].1 == stop_slots(entries@)[sorted@[k2 - 1].0 as int]);
        }
    }
    assert forall|k: int| 0 <= k < points@.len() implies (#[trigger] points@[k]).0 < entries@.len() by {
        if 0 < k && k < points@.len() - 1 {
            assert(sorted@[k - 1].0 < entries@.len());
        }
    }
    points
}

/// The shape of a point list: at least two points, from slot 0 to slot
/// 511, never going back, every point naming one of `stops` stops.
pub open spec fn gradient_shape(points: Seq<(usize, usize)>, stops: nat) -> bool {
    &&& points.len() >= 2
    &&& points[0].1 == 0
    &&& points.last().1 == 511
    &&& forall|k1: int, k2: int|
        0 <= k1 <= k2 < points.len() ==> #[trigger] points[k1].1 <= #[trigger] points[k2].1
    &&& forall|k: int| 0 <= k < points.len() ==> (#[trigger] points[k]).0 < stops
}

/// How one slot of the gradient is coloured: the colour of stop `from`
/// blended towards stop `to` by `step / span` (just `from` when `span` is
/// zero).
#[derive(Clone, Copy, PartialEq, Eq, Debug)]
pub struct GradientSample {
    pub from: usize,
    pub to: usize,
    pub step: usize,
    pub span: usize,
}

/// The last segment of the gradient, searching down from `top`, that
/// starts at or before `slot`.
pub open spec fn last_segment(points: Seq<(usize, usize)>, slot: int, top: int) -> int
    decreases top,
{
    if top <= 0 || points[top].1 <= slot {
        top
    } else {
        last_segment(points, slot, top - 1)
    }
}

/// What segment `w` (from point `w` to point `w + 1`) paints at `slot`.
pub open spec fn segment_sample(points: Seq<(usize, usize)>, w: int, slot: int) -> GradientSample {
    let span = points[w + 1].1 - points[w].1;
    if span == 0 {
        GradientSample { from: points[w].0, to: points[w].0, step: 0, span: 0 }
    } else {
        GradientSample {
            from: points[w].0,
            to: points[w + 1].0,
            step: (slot - points[w].1) as usize,
            span: span as usize,
        }
    }
}

/// The colour of a slot comes from the last segment that starts at or
/// before it.
pub open spec fn gradient_sample(points: Seq<(usize, usize)>, slot: int) -> GradientSample {
    segment_sample(points, last_segment(points, slot, points.len() - 2), slot)
}

proof fn lemma_last_segment(points: Seq<(usize, usize)>, slot: int, w: int, top: int)
    requires
        0 <= w <= top < points.len() - 1,
        forall|k1: int, k2: int|
            0 <= k1 <= k2 < points.len() ==> #[trigger] points[k1].1 <= #[trigger] points[k2].1,
        points[w].1 <= slot,
        w == top || slot < points[w + 1].1,
    ensures
        last_segment(points, slot, top) == w,
    decreases top,
{
    if top > w {
        assert(points[w + 1].1 <= points[top].1);
        lemma_last_segment(points, slot, w, top - 1);
    }
}

/// Assigns every slot of the gradient its sample, painting the segments
/// between consecutive points in order.
pub fn gradient_layout(points: &Vec<(usize, usize)>, stops: usize) -> (samples: Vec<
    GradientSample,
>)
    requires
        gradient_shape(points@, stops as nat),
    ensures
        samples@.len() == PALETTE_SIZE,
        forall|slot: int|
            0 <= slot < PALETTE_SIZE ==> #[trigger] samples@[slot] == gradient_sample(
                points@,
                slot,
            ),
{
    let blank = GradientSample { from: 0, to: 0, step: 0, span: 0 };
    let mut samples: Vec<GradientSample> = Vec::new();
    let mut s: usize = 0;
    while s < PALETTE_SIZE
        invariant
            0 <= s <= PALETTE_SIZE,
            samples@.len() == s,
        decreases PALETTE_SIZE - s,
    {
        samples.push(blank);
        s += 1;
    }
    let top = points.len() - 1;
    let mut w: usize = 0;
    while w < top
        invariant
            gradient_shape(points@, stops as nat),
            top == points@.len() - 1,
            0 <= w <= top,
            samples@.len() == PALETTE_SIZE,
            forall|slot: int|
                0 <= slot < points@[w as int].1 ==> #[trigger] samples@[slot] == gradient_sample(
                    points@,
                    slot,
                ),
            w > 0 ==> samples@[points@[w as int].1 as int] == segment_sample(
                points@,
                w - 1,
                points@[w as int].1 as int,
            ),
        decreases top - w,
    {
        let (from, from_slot) = points[w];
        let (to, to_slot) = points[w + 1];
        assert(points@[w as int].1 <= points@[w + 1].1);
        assert(points@[w + 1].1 <= points@.last().1);
        let span = to_slot - from_slot;
        let ghost before = samples@;
        if span == 0 {
            samples.set(from_slot, GradientSample { from, to: from, step: 0, span: 0 });
        } else {
            let mut i: usize = 0;
            while i <= span
                invariant
                    gradient_shape(points@, stops as nat),
                    top == points@.len() - 1,
                    0 <= w < top,
                    from == points@[w as int].0,
                    to == points@[w + 1].0,
                    from_slot == points@[w as int].1,
                    to_slot == points@[w + 1].1,
                    span == to_slot - from_slot,
                    span > 0,
                    to_slot <= 511,
                    0 <= i <= span + 1,
                    samples@.len() == PALETTE_SIZE,
                    forall|slot: int|
                        0 <= slot < from_slot ==> #[trigger] samples@[slot] == before[slot],
                    forall|slot: int|
                        from_slot <= slot < from_slot + i ==> #[trigger] samples@[slot]
                            == segment_sample(points@, w as int, slot),
                decreases span + 1 - i,
            {
                samples.set(from_slot + i, GradientSample { from, to, step: i, span });
                i += 1;
            }
        }
        proof {
            assert forall|slot: int|
                0 <= slot < points@[w + 1].1 implies #[trigger] samples@[slot] == gradient_sample(
                points@,
                slot,
            ) by {
                if slot >= points@[w as int].1 {
                    lemma_last_segment(points@, slot, w as int, points@.len() - 2);
                }
            }
        }
        w += 1;
    }
    proof {
        lemma_last_segment(points@, 511, points@.len() - 2, points@.len() - 2);
        assert forall|slot: int|
            0 <= slot < PALETTE_SIZE implies #[trigger] samples@[slot] == gradient_sample(
            points@,
            slot,
        ) by {
            if slot == 511 {
                assert(samples@[points@[top as int].1 as int] == segment_sample(
                    points@,
                    top - 1,
                    511,
                ));
            }
        }
    }
    samples
}

/// The layout of the 512-colour gradient of a palette of at least one stop.
pub fn make_palette(entries: &[PaletteEntry]) -> (samples: Vec<GradientSample>)
    requires
        entries@.len() > 0,
    ensures
        samples@.len() == PALETTE_SIZE,
        exists|sorted: Seq<(usize, usize)>|
            sorted_stops(entries@, sorted) && forall|slot: int|
                0 <= slot < PALETTE_SIZE ==> #[trigger] samples@[slot] == gradient_sample(
                    gradient_points(entries@, sorted),
                    slot,
                ),
        forall|sorted: Seq<(usize, usize)>, slot: int|
            #![trigger sorted_stops(entries@, sorted), samples@[slot]]
            sorted_stops(entries@, sorted) && 0 <= slot < PALETTE_SIZE ==> samples@[slot]
                == gradient_sample(gradient_points(entries@, sorted), slot),
{
    let points = gradient_point_list(entries);
    let samples = gradient_layout(&points, entries.len());
    proof {
        let witness = choose|sorted: Seq<(usize, usize)>|
            sorted_stops(entries@, sorted) && points@ == gradient_points(entries@, sorted);
        assert forall|sorted: Seq<(usize, usize)>, slot: int|
            #![trigger sorted_stops(entries@, sorted), samples@[slot]]
            sorted_stops(entries@, sorted) && 0 <= slot < PALETTE_SIZE implies samples@[slot]
            == gradient_sample(gradient_points(entries@, sorted), slot) by {
            lemma_sorted_stops_unique(entries@, witness, sorted);
        }
    }
    samples
}

} // verus!
