//! What the frame driver is told at the end of its wait, and the key
//! bindings that turn a key into a command.

use vstd::prelude::*;

use crate::direction::Direction;

verus! {

/// A key as the bindings see it.
#[derive(Clone, Copy, PartialEq, Eq, Debug)]
pub enum Key {
    Char(char),
    Esc,
    Left,
    Right,
    Up,
    Down,
    /// Any key without a binding of its own kind.
    Other,
}

/// One of the two actors.
#[derive(Clone, Copy, PartialEq, Eq, Structural, Debug)]
pub enum Player {
    First,
    Second,
}

/// What a bound key asks for.
#[derive(Clone, Copy, PartialEq, Eq, Debug)]
pub enum Command {
    Quit,
    Steer(Player, Direction),
}

/// How the wait for input ended.
#[derive(Clone, Copy, PartialEq, Eq, Debug)]
pub enum Input {
    /// Nothing arrived in time: the actors move on their own.
    Idle,
    /// A key was pressed.
    Key(Key),
    /// Something arrived that is not a key press.
    Other,
}

/// Whether the frame loop goes on after a frame.
#[derive(Clone, Copy, PartialEq, Eq, Structural, Debug)]
pub enum Flow {
    Continue,
    Quit,
}

/// The bindings: `q` and Escape quit, the arrow keys steer the first actor,
/// and `a d w s` or `4 6 8 2` steer the second actor left, right, up and
/// down.
pub open spec fn command_of(key: Key) -> Option<Command> {
    match key {
        Key::Esc => Some(Command::Quit),
        Key::Left => Some(Command::Steer(Player::First, Direction::Left)),
        Key::Right => Some(Command::Steer(Player::First, Direction::Right)),
        Key::Up => Some(Command::Steer(Player::First, Direction::Up)),
        Key::Down => Some(Command::Steer(Player::First, Direction::Down)),
        Key::Char(c) => if c == 'q' {
            Some(Command::Quit)
        } else if c == 'a' || c == '4' {
            Some(Command::Steer(Player::Second, Direction::Left))
        } else if c == 'd' || c == '6' {
            Some(Command::Steer(Player::Second, Direction::Right))
        } else if c == 'w' || c == '8' {
            Some(Command::Steer(Player::Second, Direction::Up))
        } else if c == 's' || c == '2' {
            Some(Command::Steer(Player::Second, Direction::Down))
        } else {
            None
        },
        Key::Other => None,
    }
}

/// Whether the loop goes on after `input`: it ends on a quit key alone.
pub open spec fn flow_of(input: Input) -> Flow {
    match input {
        Input::Key(key) if command_of(key) == Some(Command::Quit) => Flow::Quit,
        _ => Flow::Continue,
    }
}

/// Looks `key` up in the bindings.
pub fn command_for(key: Key) -> (command: Option<Command>)
    ensures
        command == command_of(key),
{
    match key {
        Key::Esc | Key::Char('q') => Some(Command::Quit),
        Key::Left => Some(Command::Steer(Player::First, Direction::Left)),
        Key::Right => Some(Command::Steer(Player::First, Direction::Right)),
        Key::Up => Some(Command::Steer(Player::First, Direction::Up)),
        Key::Down => Some(Command::Steer(Player::First, Direction::Down)),
        Key::Char('a') | Key::Char('4') => Some(Command::Steer(Player::Second, Direction::Left)),
        Key::Char('d') | Key::Char('6') => Some(Command::Steer(Player::Second, Direction::Right)),
        Key::Char('w') | Key::Char('8') => Some(Command::Steer(Player::Second, Direction::Up)),
        Key::Char('s') | Key::Char('2') => Some(Command::Steer(Player::Second, Direction::Down)),
        _ => None,
    }
}

} // verus!
