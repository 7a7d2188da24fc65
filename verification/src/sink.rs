//! What crosses the boundary of the core: the keys held during a tick on
//! the way in; requests to create sprites and updates to existing ones on
//! the way out.
//!
//! A sprite is known to the core by the handle its creator returned for
//! it. A controller that has no handle for a thing says nothing about it.

use crate::colour::Colour;
use vstd::prelude::*;

verus! {

/// The logical keys, each held or not, as sampled once per tick.
#[derive(Clone, Copy, Debug, PartialEq, Eq, Structural)]
pub struct Keys {
    pub jump: bool,
    pub left: bool,
    pub right: bool,
}

/// Asks for a new sprite. The texture is an asset path, handed through
/// untouched.
#[derive(Clone, Copy, Debug, PartialEq, Eq)]
pub struct SpawnRequest {
    pub texture: &'static str,
    pub i: i64,
    pub j: i64,
    pub scale: i64,
    pub flip_x: bool,
    pub colour: Colour,
}

/// Places an existing sprite.
#[derive(Clone, Copy, Debug, PartialEq, Eq, Structural)]
pub struct TransformUpdate {
    pub entity: u64,
    pub i: i64,
    pub j: i64,
    pub scale: i64,
}

/// Sets how an existing sprite is drawn.
#[derive(Clone, Copy, Debug, PartialEq, Eq, Structural)]
pub struct SpriteUpdate {
    pub entity: u64,
    pub flip_x: bool,
    pub colour: Colour,
}

} // verus!
