//! A countdown timer with three screens (time setup, running countdown,
//! ringing alarm), written as pure state machines over explicit timestamps,
//! together with the phase logic of its two-tone alarm signal.
//!
//! The host event loop owns the clock, the keyboard, the window and the audio
//! device. It turns what happens there into the plain values of this crate
//! and acts on the plain values that come back.

pub mod alarm;
pub mod keys;
pub mod time;
pub mod views;
