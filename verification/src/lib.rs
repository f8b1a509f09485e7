//! A countdown controller: a repeating timer that counts its fires, halves
//! its period on every tenth fire and starts over once it has counted past a
//! hundred. Each fire asks the sprite to restart its colour fade.
//!
//! `model` states the countdown over natural numbers, `controller` runs it
//! on machine integers, `fade` holds what a fire asks of the sprite,
//! `theorems` proves what holds over any run of frames, and `timing` is the
//! one call into the engine's timer.

pub mod controller;
pub mod fade;
pub mod model;
pub mod theorems;
pub mod timing;

pub use controller::{Countdown, Fire};
pub use fade::SpriteCompo;
