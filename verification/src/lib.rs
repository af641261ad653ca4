//! A planning library for a farming simulation game.
//!
//! The library holds a fixed catalog of fourteen plants, the four seasons,
//! the four supported crop ratios, and a lookup engine that maps a
//! (season, ratio) pair to the list of valid plant combinations for it.

pub mod lookup;
pub mod plant;
