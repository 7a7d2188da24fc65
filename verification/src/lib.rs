//! The simulation core of a small arcade game: a character hops under
//! gravity while the score display passes through stages of corruption,
//! until an antagonist appears and starts dropping projectiles.
//!
//! All quantities are fixed-point integers (see [`fixed`]); nothing here
//! draws, loads assets or reads the keyboard. Every controller takes the
//! state it owns by mutable reference and returns what the renderer
//! should be told.

pub mod chance;
pub mod colour;
pub mod fixed;
pub mod java;
pub mod player;
pub mod score;
pub mod setup;
pub mod sink;
pub mod texter;
pub mod text;
pub mod world;
