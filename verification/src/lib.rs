//! A small arena game as a set of rules: a cube that is steered left and
//! right on a walled ground and fires bullets that vanish after three
//! seconds, with a few display toggles.
//!
//! The crate holds the rules and the state they act on, in fixed-point
//! numbers, and nothing of drawing, colliding or reading the keyboard. A
//! frame is one call of `game::Game::update` with the keys that are down
//! and the time that has passed.

pub mod bullet;
pub mod config;
pub mod entity;
pub mod game;
pub mod input;
pub mod laws;
pub mod lifetime;
pub mod math;
pub mod player;
pub mod settings;
pub mod startup;
pub mod world;
