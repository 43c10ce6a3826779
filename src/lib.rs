//! A snake that moves on a toroidal grid, eats food, grows, and ends the game
//! when it runs into itself. The simulation is verified; drawing, windows and
//! the clock source live outside this library.

pub mod game;
pub mod grid;
pub mod snake;
