//! What happens when the two actors would run into each other: the overlap
//! test on their footprints, the exchange of their colours and the colour of
//! the pickup that a collision of like-coloured actors leaves behind.

use vstd::prelude::*;

use crate::actor::{Actor, FOOTPRINT};
use crate::color::{next_palette_color, next_special_color, Color};

verus! {

/// The footprints whose top-left cells are `a` and `b` share at least one
/// cell.
pub open spec fn footprints_overlap(a: (u16, u16), b: (u16, u16)) -> bool {
    &&& a.0 < b.0 + FOOTPRINT
    &&& a.0 + FOOTPRINT > b.0
    &&& a.1 < b.1 + FOOTPRINT
    &&& a.1 + FOOTPRINT > b.1
}

/// Both actors carry a colour, and it is the same one.
pub open spec fn same_color(first: Option<Color>, second: Option<Color>) -> bool {
    first is Some && first == second
}

/// The colours the first and the second actor leave a collision with: each
/// the other's, unless that would give both the same colour, in which case
/// both lose it.
pub open spec fn exchanged(first: Option<Color>, second: Option<Color>) -> (
    Option<Color>,
    Option<Color>,
) {
    if same_color(first, second) {
        (None, None)
    } else {
        (second, first)
    }
}

/// The colour of the pickup a collision spawns: the palette colour after the
/// one both actors carry. Actors of different colours, or without colour,
/// spawn nothing.
pub open spec fn spawn_color(first: Option<Color>, second: Option<Color>) -> Option<Color> {
    if same_color(first, second) {
        Some(next_palette_color(first.unwrap()))
    } else {
        None
    }
}

/// Whether the footprints of `a` and `b` overlap.
pub fn overlap(a: &Actor, b: &Actor) -> (hit: bool)
    ensures
        hit == footprints_overlap((a.x, a.y), (b.x, b.y)),
{
    a.x.saturating_sub(b.x) < FOOTPRINT && b.x.saturating_sub(a.x) < FOOTPRINT
        && a.y.saturating_sub(b.y) < FOOTPRINT && b.y.saturating_sub(a.y) < FOOTPRINT
}

/// Whether both colours are present and equal.
pub fn colors_match(first: Option<Color>, second: Option<Color>) -> (same: bool)
    ensures
        same == same_color(first, second),
{
    match (first, second) {
        (Some(a), Some(b)) => a == b,
        _ => false,
    }
}

/// Swaps the colours of two colliding actors, clearing both when the swap
/// leaves them alike.
pub fn exchange_colors(first: Option<Color>, second: Option<Color>) -> (after: (
    Option<Color>,
    Option<Color>,
))
    ensures
        after == exchanged(first, second),
{
    if colors_match(second, first) {
        (None, None)
    } else {
        (second, first)
    }
}

/// The colour of the pickup to spawn for a collision of actors carrying
/// `first` and `second`, if one is due.
pub fn pickup_to_spawn(first: Option<Color>, second: Option<Color>) -> (color: Option<Color>)
    ensures
        color == spawn_color(first, second),
{
    match first {
        Some(current) if colors_match(first, second) => Some(next_special_color(current)),
        _ => None,
    }
}

} // verus!
