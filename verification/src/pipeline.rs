//! How the passes are put together: which effect stage follows the rain and
//! bloom passes, the size every render target is made with, and the ring of
//! the last few touches that the mirror effect ripples from.
use vstd::prelude::*;

use crate::config::EffectKind;

verus! {

/// The stage between the bloom pass and the screen.
#[derive(Clone, Copy, PartialEq, Eq, Debug)]
pub enum EffectStage {
    /// The rain goes to the screen as it is.
    Direct,
    /// The palette pass colours the rain and its bloom.
    Palette,
    /// The mirror pass blends the rain with the camera and the touches.
    Mirror,
}

/// The stage that an effect runs: the plain and palette effects share the
/// palette pass.
pub open spec fn spec_effect_stage(effect: EffectKind) -> EffectStage {
    match effect {
        EffectKind::Off => EffectStage::Direct,
        EffectKind::Plain => EffectStage::Palette,
        EffectKind::Palette => EffectStage::Palette,
        EffectKind::Mirror => EffectStage::Mirror,
    }
}

/// The stage that an effect runs.
pub fn effect_stage(effect: EffectKind) -> (stage: EffectStage)
    ensures
        stage == spec_effect_stage(effect),
{
    match effect {
        EffectKind::Off => EffectStage::Direct,
        EffectKind::Plain | EffectKind::Palette => EffectStage::Palette,
        EffectKind::Mirror => EffectStage::Mirror,
    }
}

/// Whether a stage takes touches (only the mirror ripples from them).
pub fn takes_touches(stage: EffectStage) -> (takes: bool)
    ensures
        takes == (stage == EffectStage::Mirror),
{
    match stage {
        EffectStage::Mirror => true,
        _ => false,
    }
}

/// The size a render target is made with: each side at least one pixel.
pub fn target_extent(size: [u32; 2]) -> (extent: [u32; 2])
    ensures
        extent[0] == (if size[0] < 1 {
            1
        } else {
            size[0]
        }),
        extent[1] == (if size[1] < 1 {
            1
        } else {
            size[1]
        }),
{
    [if size[0] < 1 {
        1
    } else {
        size[0]
    }, if size[1] < 1 {
        1
    } else {
        size[1]
    }]
}

/// The kinds of surface format the renderer tells apart: the two plain
/// 8-bit formats it prefers to draw to, and any other.
#[derive(Clone, Copy, PartialEq, Eq, Debug)]
pub enum SurfaceFormatKind {
    Bgra8Unorm,
    Rgba8Unorm,
    Other,
}

/// Whether a surface format is one of the two plain 8-bit formats.
pub open spec fn is_plain_format(format: SurfaceFormatKind) -> bool {
    format == SurfaceFormatKind::Bgra8Unorm || format == SurfaceFormatKind::Rgba8Unorm
}

/// The place, in the list a surface offers, of the format to draw to: the
/// first plain 8-bit format, or the first format of all when there is none.
pub open spec fn spec_preferred_format(formats: Seq<SurfaceFormatKind>) -> int {
    if exists|i: int| 0 <= i < formats.len() && is_plain_format(#[trigger] formats[i]) {
        choose|i: int|
            0 <= i < formats.len() && is_plain_format(formats[i]) && forall|j: int|
                0 <= j < i ==> !is_plain_format(#[trigger] formats[j])
    } else {
        0
    }
}

/// The place of the format to draw to among those a surface offers.
pub fn preferred_format(formats: &[SurfaceFormatKind]) -> (index: usize)
    requires
        formats@.len() > 0,
    ensures
        index < formats@.len(),
        index == spec_preferred_format(formats@),
        is_plain_format(formats@[index as int]) || index == 0,
        forall|j: int| 0 <= j < index ==> !is_plain_format(#[trigger] formats@[j]),
{
    let n = formats.len();
    let mut i: usize = 0;
    while i < n
        invariant
            n == formats@.len(),
            0 <= i <= n,
            forall|j: int| 0 <= j < i ==> !is_plain_format(#[trigger] formats@[j]),
        decreases n - i,
    {
        let plain = match formats[i] {
            SurfaceFormatKind::Bgra8Unorm | SurfaceFormatKind::Rgba8Unorm => true,
            SurfaceFormatKind::Other => false,
        };
        if plain {
            proof {
                let c = choose|k: int|
                    0 <= k < formats@.len() && is_plain_format(formats@[k]) && forall|j: int|
                        0 <= j < k ==> !is_plain_format(#[trigger] formats@[j]);
                assert(is_plain_format(formats@[i as int]));
                if c < i {
                    assert(!is_plain_format(formats@[c]));
                }
                if c > i {
                    assert(!is_plain_format(formats@[i as int]));
                }
            }
            return i;
        }
        i += 1;
    }
    0
}

/// How many touches the mirror remembers.
pub const NUM_TOUCHES: usize = 5;

/// The last `NUM_TOUCHES` touches; each new one overwrites the oldest.
pub struct TouchRing<T> {
    touches: Vec<T>,
    next: usize,
}

/// Slots and cursor after recording `touch` into `slots` at `cursor`.
pub open spec fn spec_record<T>(slots: Seq<T>, cursor: nat, touch: T) -> (Seq<T>, nat) {
    (slots.update(cursor as int, touch), ((cursor + 1) % NUM_TOUCHES as nat) as nat)
}

/// Slots and cursor after recording each of `touches` in turn.
pub open spec fn spec_record_all<T>(slots: Seq<T>, cursor: nat, touches: Seq<T>) -> (Seq<T>, nat)
    decreases touches.len(),
{
    if touches.len() == 0 {
        (slots, cursor)
    } else {
        let before = spec_record_all(slots, cursor, touches.drop_last());
        spec_record(before.0, before.1, touches.last())
    }
}

impl<T> TouchRing<T> {
    #[verifier::type_invariant]
    spec fn well_formed(self) -> bool {
        self.touches@.len() == NUM_TOUCHES && self.next < NUM_TOUCHES
    }

    /// The slots, oldest overwritten first starting at the cursor.
    pub closed spec fn slots(self) -> Seq<T> {
        self.touches@
    }

    /// The slot that the next touch goes to.
    pub closed spec fn cursor(self) -> nat {
        self.next as nat
    }
}

impl<T: Copy> TouchRing<T> {
    /// A ring whose slots all hold `blank`.
    pub fn new(blank: T) -> (ring: Self)
        ensures
            ring.slots() == Seq::new(NUM_TOUCHES as nat, |i: int| blank),
            ring.cursor() == 0,
    {
        let touches = vec![blank, blank, blank, blank, blank];
        assert(touches@ =~= Seq::new(NUM_TOUCHES as nat, |i: int| blank));
        TouchRing { touches, next: 0 }
    }

    /// Records a touch in the slot under the cursor and moves the cursor on.
    pub fn record(&mut self, touch: T)
        ensures
            (final(self).slots(), final(self).cursor()) == spec_record(
                old(self).slots(),
                old(self).cursor(),
                touch,
            ),
    {
        proof {
            use_type_invariant(&*self);
        }
        let at = self.next;
        let mut touches: Vec<T> = Vec::new();
        for i in 0..NUM_TOUCHES
            invariant
                self.touches@.len() == NUM_TOUCHES,
                at < NUM_TOUCHES,
                touches@ =~= self.touches@.update(at as int, touch).take(i as int),
        {
            if i == at {
                touches.push(touch);
            } else {
                touches.push(self.touches[i]);
            }
        }
        self.touches = touches;
        self.next = (at + 1) % NUM_TOUCHES;
    }

    /// The slots, in slot order.
    pub fn touches(&self) -> (all: [T; NUM_TOUCHES])
        ensures
            all@ == self.slots(),
    {
        proof {
            use_type_invariant(self);
        }
        let all = [self.touches[0], self.touches[1], self.touches[2], self.touches[3], self.touches[4]];
        assert(all@ =~= self.slots());
        all
    }

    /// The slot that the next touch goes to.
    pub fn next_slot(&self) -> (slot: usize)
        ensures
            slot == self.cursor(),
            slot < NUM_TOUCHES,
    {
        proof {
            use_type_invariant(self);
        }
        self.next
    }
}

/// How many records after one at `cursor` the slot `j` is written.
pub open spec fn ring_distance(cursor: int, j: int) -> int {
    if j >= cursor {
        j - cursor
    } else {
        j - cursor + NUM_TOUCHES
    }
}

/// Recording touches one after another writes them to consecutive slots
/// from the cursor on, wrapping around, and leaves every other slot as it
/// was; after `NUM_TOUCHES` of them the cursor is back where it started and
/// the ring holds exactly those touches, the oldest under the cursor.
pub proof fn lemma_ring_keeps_latest<T>(slots: Seq<T>, cursor: nat, touches: Seq<T>)
    requires
        slots.len() == NUM_TOUCHES,
        cursor < NUM_TOUCHES,
        touches.len() <= NUM_TOUCHES,
    ensures
        spec_record_all(slots, cursor, touches).0.len() == NUM_TOUCHES,
        spec_record_all(slots, cursor, touches).1 == (if cursor + touches.len() < NUM_TOUCHES {
            cursor + touches.len() as int
        } else {
            cursor + touches.len() - NUM_TOUCHES
        }),
        forall|j: int|
            0 <= j < NUM_TOUCHES && ring_distance(cursor as int, j) < touches.len()
                ==> #[trigger] spec_record_all(slots, cursor, touches).0[j]
                == touches[ring_distance(cursor as int, j)],
        forall|j: int|
            0 <= j < NUM_TOUCHES && ring_distance(cursor as int, j) >= touches.len()
                ==> #[trigger] spec_record_all(slots, cursor, touches).0[j] == slots[j],
    decreases touches.len(),
{
    if touches.len() > 0 {
        let rest = touches.drop_last();
        lemma_ring_keeps_latest(slots, cursor, rest);
        let before = spec_record_all(slots, cursor, rest);
        let n = rest.len();
        let after = spec_record_all(slots, cursor, touches);
        assert(after == spec_record(before.0, before.1, touches.last()));
        assert(ring_distance(cursor as int, before.1 as int) == n);
        assert forall|j: int|
            0 <= j < NUM_TOUCHES && ring_distance(cursor as int, j) < touches.len() implies
            #[trigger] after.0[j] == touches[ring_distance(cursor as int, j)] by {
            if j != before.1 {
                assert(rest[ring_distance(cursor as int, j)] == touches[ring_distance(
                    cursor as int,
                    j,
                )]);
            }
        }
        assert forall|j: int|
            0 <= j < NUM_TOUCHES && ring_distance(cursor as int, j) >= touches.len() implies
            #[trigger] after.0[j] == slots[j] by {
            assert(j != before.1);
            assert(before.0[j] == slots[j]);
        }
    }
}

} // verus!
