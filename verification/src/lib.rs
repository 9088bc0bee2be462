//! The movement, collision and colour rules of a two-actor terminal game,
//! and two smaller models beside it: a single block pushed around by keys
//! and a grid painted by a cursor.

pub mod actor;
pub mod app;
pub mod collision;
pub mod color;
pub mod direction;
pub mod grid;
pub mod input;
mod rng;
pub mod scene;
pub mod single;
pub mod special;
