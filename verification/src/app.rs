//! The game state and the frame driver that advances it: one frame lets the
//! flash fade, then either applies a key press or, when no input arrived,
//! moves both actors, lets them collect pickups and resolves their
//! collision.

use vstd::prelude::*;

use crate::actor::{Actor, FOOTPRINT};
use crate::collision::{
    exchange_colors,
    exchanged,
    footprints_overlap,
    overlap,
    pickup_to_spawn,
    same_color,
    spawn_color,
};
use crate::color::{palette, palette_index, Color};
use crate::direction::Direction;
use crate::input::{command_for, command_of, flow_of, Command, Flow, Input, Player};
use crate::rng::random_below;
use crate::special::{
    color_after_pickup,
    lemma_picked_color_is_last,
    none_covered,
    picked_color,
    remove_covered,
    untouched,
    SpecialObject,
};

verus! {

/// Number of frames a collision keeps the surface flashing.
pub const FLASH_FRAMES: u32 = 5;

/// Everything the game remembers between frames.
#[derive(PartialEq, Eq, Debug)]
pub struct App {
    pub first: Actor,
    pub second: Actor,
    /// The surface is drawn flashing.
    pub flash: bool,
    /// Frames until the flash ends.
    pub flash_timer: u32,
    /// The pickups lying on the surface.
    pub specials: Vec<SpecialObject>,
}

/// The game state as a mathematical value.
pub struct AppView {
    pub first: Actor,
    pub second: Actor,
    pub flash: bool,
    pub flash_timer: u32,
    pub specials: Seq<SpecialObject>,
}

impl View for App {
    type V = AppView;

    open spec fn view(&self) -> AppView {
        AppView {
            first: self.first,
            second: self.second,
            flash: self.flash,
            flash_timer: self.flash_timer,
            specials: self.specials@,
        }
    }
}

/// The cell `(x, y)` is one a spawned pickup may land on: a surface of
/// `width` by `height` cells has room for an actor to its right and below.
pub open spec fn in_spawn_area(x: u16, y: u16, width: u16, height: u16) -> bool {
    x + FOOTPRINT < width && y + FOOTPRINT < height
}

impl AppView {
    /// The actor that `player` steers.
    pub open spec fn actor(self, player: Player) -> Actor {
        match player {
            Player::First => self.first,
            Player::Second => self.second,
        }
    }

    /// Both actors lie wholly on a surface of `width` by `height` cells.
    pub open spec fn in_bounds(self, width: u16, height: u16) -> bool {
        self.first.in_bounds(width, height) && self.second.in_bounds(width, height)
    }

    /// The surface flashes exactly while the countdown runs.
    pub open spec fn flash_consistent(self) -> bool {
        self.flash <==> self.flash_timer > 0
    }

    /// The state after the flash has faded by one frame.
    pub open spec fn decayed(self) -> AppView {
        if self.flash_timer == 0 {
            self
        } else {
            AppView {
                flash: self.flash && self.flash_timer > 1,
                flash_timer: (self.flash_timer - 1) as u32,
                ..self
            }
        }
    }

    /// The state after `player` pressed the key for `dir`.
    pub open spec fn steered(self, player: Player, dir: Direction, width: u16, height: u16)
        -> AppView {
        match player {
            Player::First => AppView {
                first: Actor {
                    direction: self.first.steered(self.second, dir, width, height),
                    ..self.first
                },
                ..self
            },
            Player::Second => AppView {
                second: Actor {
                    direction: self.second.steered(self.first, dir, width, height),
                    ..self.second
                },
                ..self
            },
        }
    }

    /// Where an autonomous tick would put the two actors, and the direction
    /// and colour each has once it has stopped at a border and touched the
    /// pickups under its new footprint.
    pub open spec fn tentative(self, width: u16, height: u16) -> (Actor, Actor) {
        let a = self.first.advanced(width, height);
        let b = self.second.advanced(width, height);
        (
            Actor { color: picked_color(self.specials, a.x, a.y, a.color), ..a },
            Actor { color: picked_color(self.specials, b.x, b.y, b.color), ..b },
        )
    }

    /// The tentative footprints of the two actors overlap.
    pub open spec fn collides(self, width: u16, height: u16) -> bool {
        let (a, b) = self.tentative(width, height);
        footprints_overlap((a.x, a.y), (b.x, b.y))
    }

    /// An autonomous tick would spawn a pickup: the actors collide while
    /// both carry the same colour.
    pub open spec fn spawn_due(self, width: u16, height: u16) -> bool {
        let (a, b) = self.tentative(width, height);
        self.collides(width, height) && spawn_color(a.color, b.color) is Some
    }

    /// The state after an autonomous tick on a surface of `width` by
    /// `height` cells, where a pickup that the tick spawns lands on
    /// `(spawn_x, spawn_y)`.
    ///
    /// Pickups under a tentative footprint are consumed either way. Without
    /// a collision the tentative actors are committed. With one the actors
    /// stay where they were, stop, exchange the colours they had after
    /// border and pickups, and the flash starts.
    pub open spec fn tick(self, width: u16, height: u16, spawn_x: u16, spawn_y: u16) -> AppView {
        let (a, b) = self.tentative(width, height);
        let remaining = untouched(self.specials, (a.x, a.y), (b.x, b.y));
        if self.collides(width, height) {
            let colors = exchanged(a.color, b.color);
            AppView {
                first: Actor { direction: Direction::Still, color: colors.0, ..self.first },
                second: Actor { direction: Direction::Still, color: colors.1, ..self.second },
                flash: true,
                flash_timer: FLASH_FRAMES,
                specials: match spawn_color(a.color, b.color) {
                    Some(color) => remaining.push(
                        SpecialObject { x: spawn_x, y: spawn_y, color },
                    ),
                    None => remaining,
                },
            }
        } else {
            AppView { first: a, second: b, specials: remaining, ..self }
        }
    }

    /// The state after one frame that ended with `input`: the flash fades,
    /// then a steering key is applied, or, on `Input::Idle`, the actors
    /// tick. Any other input only lets the flash fade.
    pub open spec fn after_frame(
        self,
        width: u16,
        height: u16,
        input: Input,
        spawn_x: u16,
        spawn_y: u16,
    ) -> AppView {
        let faded = self.decayed();
        match input {
            Input::Idle => faded.tick(width, height, spawn_x, spawn_y),
            Input::Key(key) => match command_of(key) {
                Some(Command::Steer(player, dir)) => faded.steered(player, dir, width, height),
                _ => faded,
            },
            Input::Other => faded,
        }
    }
}

impl App {
    /// A fresh game: both actors at the origin, still and uncoloured, no
    /// flash and no pickups.
    pub fn new() -> (app: App)
        ensures
            app.first == (Actor { x: 0, y: 0, direction: Direction::Still, color: None }),
            app.second == app.first,
            !app.flash,
            app.flash_timer == 0,
            app.specials@ == Seq::<SpecialObject>::empty(),
            app@.flash_consistent(),
    {
        let origin = Actor { x: 0, y: 0, direction: Direction::Still, color: None };
        App { first: origin, second: origin, flash: false, flash_timer: 0, specials: Vec::new() }
    }

    /// Puts the second actor into the corner opposite the origin of a
    /// surface of `width` by `height` cells, or as near to it as a surface
    /// smaller than an actor allows.
    pub fn set_initial_positions(&mut self, width: u16, height: u16)
        ensures
            final(self).second.x == if width >= FOOTPRINT { width - FOOTPRINT } else { 0 },
            final(self).second.y == if height >= FOOTPRINT { height - FOOTPRINT } else { 0 },
            final(self).second.direction == old(self).second.direction,
            final(self).second.color == old(self).second.color,
            final(self).first == old(self).first,
            final(self).flash == old(self).flash,
            final(self).flash_timer == old(self).flash_timer,
            final(self).specials == old(self).specials,
            final(self).second.in_bounds(width, height) <==> width >= FOOTPRINT && height
                >= FOOTPRINT,
    {
        self.second.x = width.saturating_sub(FOOTPRINT);
        self.second.y = height.saturating_sub(FOOTPRINT);
    }

    /// Lets the flash fade by one frame; it ends when the countdown reaches
    /// zero.
    pub fn decay_flash(&mut self)
        ensures
            final(self)@ == old(self)@.decayed(),
            old(self)@.flash_consistent() ==> final(self)@.flash_consistent(),
    {
        if self.flash_timer > 0 {
            self.flash_timer -= 1;
            if self.flash_timer == 0 {
                self.flash = false;
            }
        }
    }

    /// Applies `player`'s press of the key for `dir`.
    pub fn press(&mut self, player: Player, dir: Direction, width: u16, height: u16)
        ensures
            final(self)@ == old(self)@.steered(player, dir, width, height),
            old(self)@.in_bounds(width, height) ==> final(self)@.in_bounds(width, height),
            old(self)@.flash_consistent() ==> final(self)@.flash_consistent(),
    {
        match player {
            Player::First => {
                let other = self.second;
                self.first.steer(&other, dir, width, height);
            },
            Player::Second => {
                let other = self.first;
                self.second.steer(&other, dir, width, height);
            },
        }
    }

    /// The two actors as an autonomous tick would leave them if they do not
    /// collide.
    fn tentative_actors(&self, width: u16, height: u16) -> (moved: (Actor, Actor))
        ensures
            moved == self@.tentative(width, height),
    {
        let mut a = self.first.advance(width, height);
        let mut b = self.second.advance(width, height);
        a.color = color_after_pickup(&self.specials, &a);
        b.color = color_after_pickup(&self.specials, &b);
        (a, b)
    }

    /// Whether an autonomous tick would spawn a pickup.
    pub fn spawn_due(&self, width: u16, height: u16) -> (due: bool)
        ensures
            due == self@.spawn_due(width, height),
    {
        let (a, b) = self.tentative_actors(width, height);
        overlap(&a, &b) && pickup_to_spawn(a.color, b.color).is_some()
    }

    /// Runs one autonomous tick, placing a pickup that the tick spawns on
    /// `(spawn_x, spawn_y)`.
    pub fn tick_with(&mut self, width: u16, height: u16, spawn_x: u16, spawn_y: u16)
        ensures
            final(self)@ == old(self)@.tick(width, height, spawn_x, spawn_y),
            old(self)@.in_bounds(width, height) ==> final(self)@.in_bounds(width, height),
            old(self)@.flash_consistent() ==> final(self)@.flash_consistent(),
    {
        let (a, b) = self.tentative_actors(width, height);
        remove_covered(&mut self.specials, (a.x, a.y), (b.x, b.y));
        if overlap(&a, &b) {
            if let Some(color) = pickup_to_spawn(a.color, b.color) {
                self.specials.push(SpecialObject { x: spawn_x, y: spawn_y, color });
            }
            let colors = exchange_colors(a.color, b.color);
            self.first.color = colors.0;
            self.second.color = colors.1;
            self.first.direction = Direction::Still;
            self.second.direction = Direction::Still;
            self.flash = true;
            self.flash_timer = FLASH_FRAMES;
        } else {
            self.first = a;
            self.second = b;
        }
    }

    /// Runs one autonomous tick. A pickup that the tick spawns lands on a
    /// cell of the spawn area drawn at random, so the area must not be empty
    /// when a spawn is due.
    pub fn tick(&mut self, width: u16, height: u16)
        requires
            old(self)@.spawn_due(width, height) ==> in_spawn_area(0, 0, width, height),
        ensures
            !old(self)@.spawn_due(width, height) ==> final(self)@ == old(self)@.tick(
                width,
                height,
                0,
                0,
            ),
            old(self)@.spawn_due(width, height) ==> exists|x: u16, y: u16|
                in_spawn_area(x, y, width, height) && final(self)@ == #[trigger] old(self)@.tick(
                    width,
                    height,
                    x,
                    y,
                ),
            old(self)@.in_bounds(width, height) ==> final(self)@.in_bounds(width, height),
            old(self)@.flash_consistent() ==> final(self)@.flash_consistent(),
    {
        if self.spawn_due(width, height) {
            let x = random_below(width - FOOTPRINT);
            let y = random_below(height - FOOTPRINT);
            self.tick_with(width, height, x, y);
        } else {
            self.tick_with(width, height, 0, 0);
        }
    }

    /// Runs one frame that ended with `input`, placing a pickup that the
    /// frame spawns on `(spawn_x, spawn_y)`, and says whether the loop goes
    /// on.
    pub fn step_with(
        &mut self,
        width: u16,
        height: u16,
        input: Input,
        spawn_x: u16,
        spawn_y: u16,
    ) -> (flow: Flow)
        ensures
            final(self)@ == old(self)@.after_frame(width, height, input, spawn_x, spawn_y),
            flow == flow_of(input),
            old(self)@.in_bounds(width, height) ==> final(self)@.in_bounds(width, height),
            old(self)@.flash_consistent() ==> final(self)@.flash_consistent(),
    {
        self.decay_flash();
        match input {
            Input::Idle => {
                self.tick_with(width, height, spawn_x, spawn_y);
                Flow::Continue
            },
            Input::Key(key) => match command_for(key) {
                Some(Command::Quit) => Flow::Quit,
                Some(Command::Steer(player, dir)) => {
                    self.press(player, dir, width, height);
                    Flow::Continue
                },
                None => Flow::Continue,
            },
            Input::Other => Flow::Continue,
        }
    }

    /// Runs one frame that ended with `input` and says whether the loop goes
    /// on. A pickup that the frame spawns lands on a cell of the spawn area
    /// drawn at random, so the area must not be empty when the frame is an
    /// autonomous tick and a spawn is due.
    pub fn step(&mut self, width: u16, height: u16, input: Input) -> (flow: Flow)
        requires
            input is Idle && old(self)@.spawn_due(width, height) ==> in_spawn_area(
                0,
                0,
                width,
                height,
            ),
        ensures
            flow == flow_of(input),
            !(input is Idle && old(self)@.spawn_due(width, height)) ==> final(self)@ == old(
                self,
            )@.after_frame(width, height, input, 0, 0),
            input is Idle && old(self)@.spawn_due(width, height) ==> exists|x: u16, y: u16|
                in_spawn_area(x, y, width, height) && final(self)@ == #[trigger] old(
                    self,
                )@.after_frame(width, height, input, x, y),
            old(self)@.in_bounds(width, height) ==> final(self)@.in_bounds(width, height),
            old(self)@.flash_consistent() ==> final(self)@.flash_consistent(),
    {
        let idle = match input {
            Input::Idle => true,
            _ => false,
        };
        if idle && self.spawn_due(width, height) {
            let x = random_below(width - FOOTPRINT);
            let y = random_below(height - FOOTPRINT);
            self.step_with(width, height, input, x, y)
        } else {
            self.step_with(width, height, input, 0, 0)
        }
    }
}

/// Where a tick spawns nothing, the spawn position has no part in it.
pub proof fn lemma_tick_without_spawn_ignores_position(
    s: AppView,
    width: u16,
    height: u16,
    spawn_x: u16,
    spawn_y: u16,
)
    requires
        !s.spawn_due(width, height),
    ensures
        s.tick(width, height, spawn_x, spawn_y) == s.tick(width, height, 0, 0),
{
}

/// An autonomous tick leaves both actors on the surface they were on.
pub proof fn lemma_tick_keeps_bounds(
    s: AppView,
    width: u16,
    height: u16,
    spawn_x: u16,
    spawn_y: u16,
)
    requires
        s.in_bounds(width, height),
    ensures
        s.tick(width, height, spawn_x, spawn_y).in_bounds(width, height),
{
}

/// Whatever a frame ends with, it leaves both actors on the surface they
/// were on.
pub proof fn lemma_frame_keeps_bounds(
    s: AppView,
    width: u16,
    height: u16,
    input: Input,
    spawn_x: u16,
    spawn_y: u16,
)
    requires
        s.in_bounds(width, height),
    ensures
        s.after_frame(width, height, input, spawn_x, spawn_y).in_bounds(width, height),
{
    lemma_tick_keeps_bounds(s.decayed(), width, height, spawn_x, spawn_y);
}

/// If the surface flashes exactly while the countdown runs, it still does
/// after the flash has faded by a frame, after a tick and after a whole
/// frame.
pub proof fn lemma_frame_keeps_flash_consistent(
    s: AppView,
    width: u16,
    height: u16,
    input: Input,
    spawn_x: u16,
    spawn_y: u16,
)
    requires
        s.flash_consistent(),
    ensures
        s.decayed().flash_consistent(),
        s.tick(width, height, spawn_x, spawn_y).flash_consistent(),
        s.after_frame(width, height, input, spawn_x, spawn_y).flash_consistent(),
{
}

/// Two actors that collide while both carry the colour `c` leave exactly one
/// new pickup behind, at the spawn position and in the palette colour that
/// follows `c`.
pub proof fn lemma_collision_spawns_next_color(
    s: AppView,
    width: u16,
    height: u16,
    spawn_x: u16,
    spawn_y: u16,
    c: Color,
)
    requires
        s.collides(width, height),
        s.tentative(width, height).0.color == Some(c),
        s.tentative(width, height).1.color == Some(c),
    ensures
        ({
            let (a, b) = s.tentative(width, height);
            let remaining = untouched(s.specials, (a.x, a.y), (b.x, b.y));
            let spawned = SpecialObject {
                x: spawn_x,
                y: spawn_y,
                color: palette()[(palette_index(c) + 1) % 3],
            };
            let after = s.tick(width, height, spawn_x, spawn_y);
            after.specials == remaining.push(spawned) && after.specials.len() == remaining.len() + 1
        }),
{
}

/// Two actors that collide without carrying the same colour spawn nothing.
pub proof fn lemma_collision_of_unlike_spawns_nothing(
    s: AppView,
    width: u16,
    height: u16,
    spawn_x: u16,
    spawn_y: u16,
)
    requires
        s.collides(width, height),
        !same_color(s.tentative(width, height).0.color, s.tentative(width, height).1.color),
    ensures
        ({
            let (a, b) = s.tentative(width, height);
            let remaining = untouched(s.specials, (a.x, a.y), (b.x, b.y));
            s.tick(width, height, spawn_x, spawn_y).specials == remaining
        }),
{
}

/// A collision leaves each actor with the colour the other carried into it,
/// except that two actors carrying the same colour both leave without one.
/// Neither moves, both stop, and the flash starts.
pub proof fn lemma_collision_exchanges_colors(
    s: AppView,
    width: u16,
    height: u16,
    spawn_x: u16,
    spawn_y: u16,
)
    requires
        s.collides(width, height),
    ensures
        ({
            let (a, b) = s.tentative(width, height);
            let alike = a.color is Some && a.color == b.color;
            let after = s.tick(width, height, spawn_x, spawn_y);
            &&& alike ==> after.first.color is None && after.second.color is None
            &&& !alike ==> after.first.color == b.color && after.second.color == a.color
            &&& after.first.x == s.first.x && after.first.y == s.first.y
            &&& after.second.x == s.second.x && after.second.y == s.second.y
            &&& after.first.direction == Direction::Still
            &&& after.second.direction == Direction::Still
            &&& after.flash && after.flash_timer == FLASH_FRAMES
        }),
{
}

/// An actor travelling left from column 1 stands in column 0 after the
/// tick, stopped and red, provided the tick commits its step and no pickup
/// lies under the footprint it arrives on.
pub proof fn lemma_left_edge_stops_and_reddens(
    s: AppView,
    player: Player,
    width: u16,
    height: u16,
    spawn_x: u16,
    spawn_y: u16,
)
    requires
        s.actor(player).direction == Direction::Left,
        s.actor(player).x == 1,
        !s.collides(width, height),
        none_covered(s.specials, 0, s.actor(player).y),
    ensures
        s.tick(width, height, spawn_x, spawn_y).actor(player) == (Actor {
            x: 0,
            y: s.actor(player).y,
            direction: Direction::Still,
            color: Some(Color::Red),
        }),
{
    let arrived = s.actor(player).advanced(width, height);
    lemma_picked_color_is_last(s.specials, arrived.x, arrived.y, arrived.color);
}

} // verus!
