//! The state a game starts from.

use crate::colour::{Colour, FULL};
use crate::fixed::UNIT;
use crate::java::{Java, JavaModel};
use crate::player::{Dir, Player, FLOOR, HASKELL_TEXTURE, PLAYER_SCALE};
use crate::score::{Score, ScoreModel};
use crate::sink::SpawnRequest;
use crate::text::{decimal, to_decimal};
use crate::texter::{State, Texter};
use crate::world::{PhysicsBody, WINDOW_HEIGHT, WINDOW_WIDTH};
use vstd::prelude::*;

verus! {

/// Horizontal position the character starts at.
pub const PLAYER_START: i64 = -450 * UNIT;

/// Height at which the antagonist paces, a tenth of the window's height
/// below its upper edge.
pub const JAVA_HEIGHT: i64 = 200 * UNIT;

/// Where the two start in the window.
pub proof fn lemma_places()
    ensures
        PLAYER_START == -(WINDOW_WIDTH / 2) + WINDOW_HEIGHT / 10,
        JAVA_HEIGHT == WINDOW_HEIGHT / 2 - WINDOW_HEIGHT / 10,
{
}

/// Everything a game consists of. The controllers each take the parts
/// they work on.
#[derive(Debug, PartialEq, Eq)]
pub struct SimulationContext {
    pub player: Player,
    pub java: Java,
    pub texter: Texter,
    pub score: Score,
    pub background: Colour,
}

/// The background before it darkens.
pub open spec fn first_background() -> Colour {
    Colour::opaque(700_000, 300_000, 300_000)
}

/// The character at the start: at rest on the floor near the window's
/// left edge, facing right, with no jump made and no sprite yet.
pub open spec fn first_player() -> Player {
    Player {
        entity: None,
        body: PhysicsBody { i: FLOOR, j: PLAYER_START, vel_i: 0, vel_j: 0, scale: PLAYER_SCALE },
        jump_count: 0,
        dir: Dir::RIGHT,
    }
}

/// The antagonist at the start: at rest in the middle of its stretch,
/// fully transparent, with no sprite and nothing in flight.
pub open spec fn first_java() -> JavaModel {
    JavaModel {
        entity: None,
        colour: Colour::white().with_alpha(0),
        body: PhysicsBody { i: JAVA_HEIGHT, j: 0, vel_i: 0, vel_j: 0, scale: PLAYER_SCALE },
        time_save: 0,
        objs: Seq::empty(),
    }
}

/// The display at the start: the count of zero, in white, not turned.
pub open spec fn first_score() -> ScoreModel {
    ScoreModel { text: decimal(0), colour: Colour::white(), rotation: 0 }
}

/// The request for the character's sprite.
pub open spec fn player_wanted(player: Player) -> SpawnRequest {
    SpawnRequest {
        texture: HASKELL_TEXTURE,
        i: player.body.i,
        j: player.body.j,
        scale: player.body.scale,
        flip_x: true,
        colour: Colour::white(),
    }
}

/// Makes the state a game starts from, and the request for the
/// character's sprite. The handle of that sprite goes to
/// `player.entity`.
pub fn setup() -> (start: (SimulationContext, SpawnRequest))
    ensures
        start.0.player == first_player(),
        start.0.java@ == first_java(),
        start.0.texter == (Texter { time_save: 0, state: State::DEFAULT }),
        start.0.score@ == first_score(),
        start.0.background == first_background(),
        start.1 == player_wanted(first_player()),
        start.0.player.body.wf(),
        start.0.java@.wf(),
        start.0.java@.on_rails(),
{
    let player = Player {
        entity: None,
        body: PhysicsBody { i: FLOOR, j: PLAYER_START, vel_i: 0, vel_j: 0, scale: PLAYER_SCALE },
        jump_count: 0,
        dir: Dir::default(),
    };
    let java = Java {
        entity: None,
        colour: Colour::rgba(FULL, FULL, FULL, 0),
        body: PhysicsBody { i: JAVA_HEIGHT, j: 0, vel_i: 0, vel_j: 0, scale: PLAYER_SCALE },
        time_save: 0,
        obj_vec: Vec::new(),
    };
    let request = SpawnRequest {
        texture: HASKELL_TEXTURE,
        i: player.body.i,
        j: player.body.j,
        scale: player.body.scale,
        flip_x: true,
        colour: Colour::rgb(FULL, FULL, FULL),
    };
    let context = SimulationContext {
        player,
        java,
        texter: Texter { time_save: 0, state: State::default() },
        score: Score {
            text: to_decimal(player.jump_count),
            colour: Colour::rgb(FULL, FULL, FULL),
            rotation: 0,
        },
        background: Colour::rgb(700_000, 300_000, 300_000),
    };
    (context, request)
}

} // verus!
