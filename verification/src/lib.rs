//! Core of a terminal snake game: a snake moves on a bounded grid with
//! toroidal (wrap-around) topology, eats food to grow, and the game ends on
//! self-collision. Rendering and input handling live outside this crate; the
//! library is the game-state model alone.

pub mod game;
pub mod snake;
