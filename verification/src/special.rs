//! Pickups: single-cell objects that colour the actor that touches them and
//! then vanish.

use vstd::prelude::*;

use crate::actor::{Actor, FOOTPRINT};
use crate::color::Color;

verus! {

/// A pickup lying on one cell of the surface.
#[derive(Clone, Copy, PartialEq, Eq, Debug)]
pub struct SpecialObject {
    pub x: u16,
    pub y: u16,
    pub color: Color,
}

impl SpecialObject {
    /// The pickup lies inside the footprint whose top-left cell is `(x, y)`.
    pub open spec fn covered_by(self, x: u16, y: u16) -> bool {
        x <= self.x < x + FOOTPRINT && y <= self.y < y + FOOTPRINT
    }

    /// Whether the footprint at `(x, y)` contains the pickup.
    pub fn is_covered_by(&self, x: u16, y: u16) -> (covered: bool)
        ensures
            covered == self.covered_by(x, y),
    {
        x <= self.x && self.x - x < FOOTPRINT && y <= self.y && self.y - y < FOOTPRINT
    }
}

/// The colour an actor whose footprint is at `(x, y)` ends up with after
/// touching the pickups in `specials`: that of the last pickup under its
/// footprint, or `current` if there is none.
pub open spec fn picked_color(specials: Seq<SpecialObject>, x: u16, y: u16, current: Option<Color>)
    -> Option<Color>
    decreases specials.len(),
{
    if specials.len() == 0 {
        current
    } else if specials.last().covered_by(x, y) {
        Some(specials.last().color)
    } else {
        picked_color(specials.drop_last(), x, y, current)
    }
}

/// The pickups that neither the footprint at `first` nor the one at `second`
/// contains, in their old order.
pub open spec fn untouched(specials: Seq<SpecialObject>, first: (u16, u16), second: (u16, u16))
    -> Seq<SpecialObject> {
    specials.filter(
        |o: SpecialObject| !o.covered_by(first.0, first.1) && !o.covered_by(second.0, second.1),
    )
}

/// The pickups that at least one of the two footprints contains.
pub open spec fn consumed(specials: Seq<SpecialObject>, first: (u16, u16), second: (u16, u16))
    -> Seq<SpecialObject> {
    specials.filter(
        |o: SpecialObject| o.covered_by(first.0, first.1) || o.covered_by(second.0, second.1),
    )
}

/// No pickup in `specials` lies under the footprint at `(x, y)`.
pub open spec fn none_covered(specials: Seq<SpecialObject>, x: u16, y: u16) -> bool {
    forall|i: int| 0 <= i < specials.len() ==> !(#[trigger] specials[i]).covered_by(x, y)
}

/// `i` is the index of the last pickup in `specials` under the footprint at
/// `(x, y)`.
pub open spec fn is_last_covered(specials: Seq<SpecialObject>, x: u16, y: u16, i: int) -> bool {
    &&& 0 <= i < specials.len()
    &&& specials[i].covered_by(x, y)
    &&& none_covered(specials.skip(i + 1), x, y)
}

/// An actor keeps its colour where no pickup lies under its footprint, and
/// otherwise takes the colour of the last pickup under it.
pub proof fn lemma_picked_color_is_last(
    specials: Seq<SpecialObject>,
    x: u16,
    y: u16,
    current: Option<Color>,
)
    ensures
        none_covered(specials, x, y) ==> picked_color(specials, x, y, current) == current,
        forall|i: int| #[trigger]
            is_last_covered(specials, x, y, i) ==> picked_color(specials, x, y, current) == Some(
                specials[i].color,
            ),
    decreases specials.len(),
{
    if specials.len() > 0 {
        let rest = specials.drop_last();
        let end = specials.len() - 1;
        lemma_picked_color_is_last(rest, x, y, current);
        assert forall|i: int| #[trigger] is_last_covered(specials, x, y, i) implies picked_color(
            specials,
            x,
            y,
            current,
        ) == Some(specials[i].color) by {
            if i < end {
                assert(specials.skip(i + 1)[end - i - 1] == specials[end]);
                assert(rest.skip(i + 1) =~= specials.skip(i + 1).drop_last());
                assert(is_last_covered(rest, x, y, i));
            }
        }
        if none_covered(specials, x, y) {
            assert(!specials[end].covered_by(x, y));
            assert forall|i: int| 0 <= i < rest.len() implies !(#[trigger] rest[i]).covered_by(
                x,
                y,
            ) by {
                assert(rest[i] == specials[i]);
            }
        }
    }
}

/// A tick consumes each pickup under a footprint exactly once, also when
/// both footprints contain it, and leaves every other pickup alone: the
/// pickups that remain and the pickups that were consumed together are the
/// pickups there were, each as often as before.
pub proof fn lemma_pickups_consumed_once(
    specials: Seq<SpecialObject>,
    first: (u16, u16),
    second: (u16, u16),
)
    ensures
        untouched(specials, first, second).to_multiset().add(
            consumed(specials, first, second).to_multiset(),
        ) =~= specials.to_multiset(),
        untouched(specials, first, second).len() + consumed(specials, first, second).len()
            == specials.len(),
        forall|i: int|
            0 <= i < untouched(specials, first, second).len() ==> {
                let o = #[trigger] untouched(specials, first, second)[i];
                !o.covered_by(first.0, first.1) && !o.covered_by(second.0, second.1)
            },
        forall|i: int|
            0 <= i < consumed(specials, first, second).len() ==> {
                let o = #[trigger] consumed(specials, first, second)[i];
                o.covered_by(first.0, first.1) || o.covered_by(second.0, second.1)
            },
    decreases specials.len(),
{
    reveal(Seq::filter);
    broadcast use vstd::seq_lib::to_multiset_build;

    if specials.len() == 0 {
        specials.to_multiset_ensures();
        vstd::multiset::lemma_multiset_empty_len(specials.to_multiset());
    } else {
        let rest = specials.drop_last();
        let last = specials.last();
        lemma_pickups_consumed_once(rest, first, second);
        assert(specials =~= rest.push(last));
        let kept = untouched(rest, first, second);
        let gone = consumed(rest, first, second);
        if last.covered_by(first.0, first.1) || last.covered_by(second.0, second.1) {
            assert(untouched(specials, first, second) == kept);
            assert(consumed(specials, first, second) == gone.push(last));
            assert(kept.to_multiset().add(gone.to_multiset().insert(last))
                =~= kept.to_multiset().add(gone.to_multiset()).insert(last));
        } else {
            assert(untouched(specials, first, second) == kept.push(last));
            assert(consumed(specials, first, second) == gone);
            assert(kept.to_multiset().insert(last).add(gone.to_multiset())
                =~= kept.to_multiset().add(gone.to_multiset()).insert(last));
        }
    }
}

/// The colour the actor carries once it has touched every pickup under its
/// footprint. The pickups themselves are left in place.
pub fn color_after_pickup(specials: &Vec<SpecialObject>, actor: &Actor) -> (color: Option<Color>)
    ensures
        color == picked_color(specials@, actor.x, actor.y, actor.color),
{
    let mut color = actor.color;
    let mut i: usize = 0;
    while i < specials.len()
        invariant
            i <= specials.len(),
            color == picked_color(specials@.take(i as int), actor.x, actor.y, actor.color),
        decreases specials.len() - i,
    {
        assert(specials@.take(i + 1).drop_last() =~= specials@.take(i as int));
        if specials[i].is_covered_by(actor.x, actor.y) {
            color = Some(specials[i].color);
        }
        i += 1;
    }
    assert(specials@.take(i as int) =~= specials@);
    color
}

/// Removes every pickup that lies under one of the two footprints. A pickup
/// under both leaves once, and the others keep their order.
pub fn remove_covered(specials: &mut Vec<SpecialObject>, first: (u16, u16), second: (u16, u16))
    ensures
        final(specials)@ == untouched(old(specials)@, first, second),
{
    let mut kept: Vec<SpecialObject> = Vec::new();
    let mut i: usize = 0;
    while i < specials.len()
        invariant
            i <= specials.len(),
            kept@ == untouched(specials@.take(i as int), first, second),
        decreases specials.len() - i,
    {
        proof {
            reveal(Seq::filter);
            assert(specials@.take(i + 1).drop_last() =~= specials@.take(i as int));
        }
        let object = specials[i];
        if !object.is_covered_by(first.0, first.1) && !object.is_covered_by(second.0, second.1) {
            kept.push(object);
        }
        i += 1;
    }
    assert(specials@.take(i as int) =~= specials@);
    *specials = kept;
}

} // verus!
