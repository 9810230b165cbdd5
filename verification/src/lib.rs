//! A snake game on a square grid that wraps round at its edges.
//!
//! [`grid`] holds the coordinates and directions, [`snake`] the body and how
//! it moves, grows and bites itself, [`food`] the placing of food on a free
//! cell, [`config`] the size of the map, and [`game`] the game that ties
//! them together, one tick at a time. [`input`] reads the keyboard and
//! [`sprite`] says where the segments are drawn.

pub mod config;
pub mod food;
pub mod game;
pub mod grid;
pub mod input;
pub mod snake;
pub mod sprite;
