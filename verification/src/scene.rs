//! What the display is asked to draw for a frame of the game.

use vstd::prelude::*;

use crate::actor::Actor;
use crate::app::{App, AppView};
use crate::color::Color;
use crate::special::SpecialObject;

verus! {

/// A block of two by two cells to draw, with the position of its top-left
/// cell and its fill colour, if it has one.
#[derive(Clone, Copy, PartialEq, Eq, Debug)]
pub struct Tile {
    pub x: u16,
    pub y: u16,
    pub color: Option<Color>,
}

/// One frame: the fill of the surface and the blocks on it, in the order in
/// which they are drawn.
#[derive(PartialEq, Eq, Debug)]
pub struct Scene {
    /// The colour the surface is filled with; none outside a flash.
    pub background: Option<Color>,
    pub tiles: Vec<Tile>,
}

/// The block drawn for an actor.
pub open spec fn actor_tile(actor: Actor) -> Tile {
    Tile { x: actor.x, y: actor.y, color: actor.color }
}

/// The block drawn for a pickup.
pub open spec fn pickup_tile(object: SpecialObject) -> Tile {
    Tile { x: object.x, y: object.y, color: Some(object.color) }
}

impl AppView {
    /// The surface is white during a flash.
    pub open spec fn background(self) -> Option<Color> {
        if self.flash {
            Some(Color::White)
        } else {
            None
        }
    }

    /// The first actor, the second actor, then the pickups in their order.
    pub open spec fn tiles(self) -> Seq<Tile> {
        seq![actor_tile(self.first), actor_tile(self.second)] + Seq::new(
            self.specials.len(),
            |i: int| pickup_tile(self.specials[i]),
        )
    }
}

impl App {
    /// Lays out the current frame for the display.
    pub fn scene(&self) -> (scene: Scene)
        ensures
            scene.background == self@.background(),
            scene.tiles@ == self@.tiles(),
    {
        let mut tiles: Vec<Tile> = Vec::new();
        tiles.push(Tile { x: self.first.x, y: self.first.y, color: self.first.color });
        tiles.push(Tile { x: self.second.x, y: self.second.y, color: self.second.color });
        let mut i: usize = 0;
        while i < self.specials.len()
            invariant
                i <= self.specials.len(),
                tiles@.len() == 2 + i,
                tiles@[0] == actor_tile(self.first),
                tiles@[1] == actor_tile(self.second),
                forall|j: int|
                    0 <= j < i ==> #[trigger] tiles@[2 + j] == pickup_tile(self.specials@[j]),
            decreases self.specials.len() - i,
        {
            let object = self.specials[i];
            tiles.push(Tile { x: object.x, y: object.y, color: Some(object.color) });
            i += 1;
        }
        assert(tiles@ =~= self@.tiles()) by {
            assert forall|k: int| 0 <= k < tiles@.len() implies tiles@[k] == self@.tiles()[k] by {
                if k >= 2 {
                    assert(tiles@[2 + (k - 2)] == pickup_tile(self.specials@[k - 2]));
                }
            }
        }
        Scene { background: if self.flash { Some(Color::White) } else { None }, tiles }
    }
}

} // verus!
