//! Colours an actor or a pickup can carry, the colour each border hands out,
//! and the cyclic palette that pickups are drawn from.

use vstd::prelude::*;

use crate::direction::Direction;

verus! {

/// A terminal colour: the sixteen named ANSI colours, the terminal's default,
/// a 24-bit colour and an entry of the 256-colour table.
#[derive(Clone, Copy, PartialEq, Eq, Structural, Debug)]
pub enum Color {
    Reset,
    Black,
    Red,
    Green,
    Yellow,
    Blue,
    Magenta,
    Cyan,
    Gray,
    DarkGray,
    LightRed,
    LightGreen,
    LightYellow,
    LightBlue,
    LightMagenta,
    LightCyan,
    White,
    Rgb(u8, u8, u8),
    Indexed(u8),
}

/// Number of colours in the pickup palette.
pub const PALETTE_LEN: usize = 3;

/// The pickup palette in its fixed order: purple, cyan, orange.
pub open spec fn palette() -> Seq<Color> {
    seq![Color::Rgb(128, 0, 128), Color::Cyan, Color::Rgb(255, 165, 0)]
}

/// Position of `color` in the palette, or 0 for a colour the palette lacks.
pub open spec fn palette_index(color: Color) -> int {
    if color == palette()[1] {
        1
    } else if color == palette()[2] {
        2
    } else {
        0
    }
}

/// The palette colour that follows `color`, wrapping past the end.
pub open spec fn next_palette_color(color: Color) -> Color {
    palette()[(palette_index(color) + 1) % 3]
}

/// The colour an actor takes on when travel in `dir` ends at the border.
pub open spec fn border_color(dir: Direction) -> Option<Color> {
    match dir {
        Direction::Left => Some(Color::Red),
        Direction::Right => Some(Color::Blue),
        Direction::Up => Some(Color::Green),
        Direction::Down => Some(Color::Yellow),
        Direction::Still => None,
    }
}

/// The palette holds `PALETTE_LEN` colours, no two alike, and
/// `palette_index` finds each of them where it stands.
pub proof fn lemma_palette_distinct()
    ensures
        palette().len() == PALETTE_LEN,
        forall|i: int, j: int|
            0 <= i < j < palette().len() ==> palette()[i] != palette()[j],
        forall|i: int| 0 <= i < palette().len() ==> palette_index(#[trigger] palette()[i]) == i,
        forall|c: Color| 0 <= #[trigger] palette_index(c) < palette().len(),
        forall|c: Color| !palette().contains(c) ==> #[trigger] palette_index(c) == 0,
{
    assert forall|c: Color| !palette().contains(c) implies #[trigger] palette_index(c) == 0 by {
        if palette_index(c) != 0 {
            assert(palette()[palette_index(c)] == c);
        }
    }
}

/// The palette colour at `index`.
pub fn special_color(index: usize) -> (color: Color)
    requires
        index < PALETTE_LEN,
    ensures
        color == palette()[index as int],
{
    if index == 0 {
        Color::Rgb(128, 0, 128)
    } else if index == 1 {
        Color::Cyan
    } else {
        Color::Rgb(255, 165, 0)
    }
}

/// Where `color` stands in the palette, if it is one of its colours.
pub fn palette_position(color: Color) -> (found: Option<usize>)
    ensures
        found is Some <==> palette().contains(color),
        found matches Some(i) ==> i < PALETTE_LEN && palette()[i as int] == color,
        found.unwrap_or(0) == palette_index(color),
{
    let mut i: usize = 0;
    while i < PALETTE_LEN
        invariant
            i <= PALETTE_LEN,
            forall|j: int| 0 <= j < i ==> palette()[j] != color,
        decreases PALETTE_LEN - i,
    {
        if special_color(i) == color {
            assert(palette().contains(color));
            return Some(i);
        }
        i += 1;
    }
    None
}

/// The colour of the pickup that a collision between two actors of colour
/// `current` leaves behind: the palette colour after `current`, or the
/// second palette colour when `current` is not in the palette.
pub fn next_special_color(current: Color) -> (next: Color)
    ensures
        next == next_palette_color(current),
        palette().contains(next),
{
    let index: usize = palette_position(current).unwrap_or(0);
    if index + 1 < PALETTE_LEN {
        special_color(index + 1)
    } else {
        special_color(0)
    }
}

/// The colour an actor is given when it stops at the border it was heading
/// for; none for an actor that was not moving.
pub fn new_color_by_border(dir: Direction) -> (color: Option<Color>)
    ensures
        color == border_color(dir),
{
    match dir {
        Direction::Left => Some(Color::Red),
        Direction::Right => Some(Color::Blue),
        Direction::Up => Some(Color::Green),
        Direction::Down => Some(Color::Yellow),
        Direction::Still => None,
    }
}

} // verus!
