//! Core of a missile-defense arcade simulation.
//!
//! Enemy missiles fall toward three bunkers; the player answers with
//! blast-radius counter-missiles.  Explosions grow through a three-phase
//! state machine, destroy missiles and stars on overlap, and destroyed
//! enemy missiles feed an experience/skill progression model.
//!
//! All world lengths are fixed-point integers in thousandths of a world
//! unit ("milli-units"), and all times are integer milliseconds, so that
//! every update rule is an exact function on integers.  Rendering, input
//! polling and the window loop live outside this crate and only read the
//! state exposed here.

pub mod bunker;
pub mod constants;
pub mod coord;
pub mod explosion;
pub mod game;
pub mod geom;
pub mod hash;
pub mod missile;
pub mod player;
pub mod rng;
pub mod star;
