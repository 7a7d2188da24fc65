//! The player's character: it runs, jumps and falls back to the floor.

use crate::colour::{Colour, FULL};
use crate::fixed::{sat, sat_add, sat_sub, scale, scaled, UNIT};
use crate::sink::{Keys, SpriteUpdate, TransformUpdate};
use crate::world::{PhysicsBody, WINDOW_HEIGHT};
use vstd::prelude::*;

verus! {

/// Asset path of the character's texture.
pub const HASKELL_TEXTURE: &'static str = "textures/haskell.png";

/// Height of the floor, a tenth of the window's height above its lower
/// edge.
pub const FLOOR: i64 = -200 * UNIT;

/// Vertical velocity a jump starts with.
pub const JUMP_IMPULSE: i64 = 10 * UNIT;

/// Vertical velocity lost per tick of free fall.
pub const FALL_STEP: i64 = 981_000;

/// Horizontal velocity gained per tick a direction key is held.
pub const RUN_STEP: i64 = 400_000;

/// Touching down multiplies the horizontal velocity by
/// `FRICTION_NUM / FRICTION_DEN`.
pub const FRICTION_NUM: i64 = 7;

/// Denominator of the friction.
pub const FRICTION_DEN: i64 = 10;

/// Scale of the character's sprite.
pub const PLAYER_SCALE: i64 = 150_000;

/// Where the floor lies in the window.
pub proof fn lemma_floor()
    ensures
        FLOOR == -(WINDOW_HEIGHT / 2) + WINDOW_HEIGHT / 10,
{
}

/// The way a character faces.
#[derive(Clone, Copy, Debug, PartialEq, Eq, Structural)]
pub enum Dir {
    LEFT,
    RIGHT,
}

impl Default for Dir {
    fn default() -> (dir: Dir)
        ensures
            dir == Dir::RIGHT,
    {
        Dir::RIGHT
    }
}

/// The character: a body, the way it faces, the jumps it has made, and
/// the handle of its sprite once there is one.
#[derive(Clone, Copy, Debug, PartialEq, Eq, Structural)]
pub struct Player {
    pub entity: Option<u64>,
    pub body: PhysicsBody,
    pub jump_count: u64,
    pub dir: Dir,
}

/// What one call of `player_move` tells the renderer: where the
/// character's sprite is and which way it is flipped.
#[derive(Clone, Copy, Debug, PartialEq, Eq, Structural)]
pub struct PlayerFrame {
    pub transform: TransformUpdate,
    pub sprite: SpriteUpdate,
}

impl Player {
    /// A jump starts when the jump key is held and the character has no
    /// vertical velocity: it stands, or hangs at the top of its arc.
    pub open spec fn jumps(self, keys: Keys) -> bool {
        keys.jump && self.body.vel_i == 0
    }

    /// The vertical velocity the tick moves by.
    pub open spec fn lift(self, keys: Keys) -> i64 {
        if self.jumps(keys) {
            JUMP_IMPULSE
        } else {
            self.body.vel_i
        }
    }

    /// The horizontal velocity the tick moves by. With both direction
    /// keys held the two steps cancel.
    pub open spec fn run(self, keys: Keys) -> i64 {
        let rightward = if keys.right {
            sat(self.body.vel_j + RUN_STEP)
        } else {
            self.body.vel_j
        };
        if keys.left {
            sat(rightward - RUN_STEP)
        } else {
            rightward
        }
    }

    /// The way the character faces after the tick. With both direction
    /// keys held it faces left.
    pub open spec fn facing(self, keys: Keys) -> Dir {
        if keys.left {
            Dir::LEFT
        } else if keys.right {
            Dir::RIGHT
        } else {
            self.dir
        }
    }

    /// Whether the tick would carry the character below the floor.
    pub open spec fn lands(self, keys: Keys) -> bool {
        self.body.i + self.lift(keys) < FLOOR
    }

    /// What the renderer is told of the character, if it has a sprite.
    pub open spec fn frame(self) -> Option<PlayerFrame> {
        match self.entity {
            Some(entity) => Some(
                PlayerFrame {
                    transform: TransformUpdate {
                        entity,
                        i: self.body.i,
                        j: self.body.j,
                        scale: self.body.scale,
                    },
                    sprite: SpriteUpdate {
                        entity,
                        flip_x: self.dir == Dir::LEFT,
                        colour: Colour::white(),
                    },
                },
            ),
            None => None,
        }
    }
}

/// The character after one tick with `keys` held.
///
/// It moves sideways by its horizontal velocity. If moving by its
/// vertical velocity would take it below the floor, it is put on the
/// floor, stops falling and is slowed by friction; else it moves and
/// gravity pulls at its vertical velocity.
pub open spec fn player_next(player: Player, keys: Keys) -> Player {
    let lift = player.lift(keys);
    let run = player.run(keys);
    Player {
        entity: player.entity,
        body: PhysicsBody {
            i: if player.lands(keys) {
                FLOOR
            } else {
                sat(player.body.i + lift)
            },
            j: sat(player.body.j + run),
            vel_i: if player.lands(keys) {
                0
            } else {
                sat(lift - FALL_STEP)
            },
            vel_j: if player.lands(keys) {
                scaled(run, FRICTION_NUM, FRICTION_DEN)
            } else {
                run
            },
            scale: player.body.scale,
        },
        jump_count: if player.jumps(keys) {
            (player.jump_count + 1) as u64
        } else {
            player.jump_count
        },
        dir: player.facing(keys),
    }
}

/// One tick of the character.
pub fn player_move(keys: &Keys, player: &mut Player) -> (frame: Option<PlayerFrame>)
    requires
        old(player).jumps(*keys) ==> old(player).jump_count < u64::MAX,
    ensures
        *final(player) == player_next(*old(player), *keys),
        frame == final(player).frame(),
        final(player).body.i >= FLOOR,
        old(player).body.wf() ==> final(player).body.wf(),
        final(player).jump_count == old(player).jump_count + if old(player).jumps(*keys) {
            1int
        } else {
            0int
        },
{
    if keys.jump && player.body.vel_i == 0 {
        player.jump_count = player.jump_count + 1;
        player.body.vel_i = JUMP_IMPULSE;
    }
    if keys.right {
        player.body.vel_j = sat_add(player.body.vel_j, RUN_STEP);
        player.dir = Dir::RIGHT;
    }
    if keys.left {
        player.body.vel_j = sat_sub(player.body.vel_j, RUN_STEP);
        player.dir = Dir::LEFT;
    }
    player.body.j = sat_add(player.body.j, player.body.vel_j);
    if sat_add(player.body.i, player.body.vel_i) < FLOOR {
        player.body.i = FLOOR;
        player.body.vel_i = 0;
        player.body.vel_j = scale(player.body.vel_j, FRICTION_NUM, FRICTION_DEN);
    } else {
        player.body.i = sat_add(player.body.i, player.body.vel_i);
        player.body.vel_i = sat_sub(player.body.vel_i, FALL_STEP);
    }
    match player.entity {
        Some(entity) => Some(
            PlayerFrame {
                transform: TransformUpdate {
                    entity,
                    i: player.body.i,
                    j: player.body.j,
                    scale: player.body.scale,
                },
                sprite: SpriteUpdate {
                    entity,
                    flip_x: match player.dir {
                        Dir::LEFT => true,
                        Dir::RIGHT => false,
                    },
                    colour: Colour::rgb(FULL, FULL, FULL),
                },
            },
        ),
        None => None,
    }
}

/// The character after a run of ticks, one entry of `keys` per tick.
pub open spec fn player_run(player: Player, keys: Seq<Keys>) -> Player
    decreases keys.len(),
{
    if keys.len() == 0 {
        player
    } else {
        player_next(player_run(player, keys.drop_last()), keys.last())
    }
}

/// The number of ticks of such a run on which a jump starts.
pub open spec fn jumps_made(player: Player, keys: Seq<Keys>) -> nat
    decreases keys.len(),
{
    if keys.len() == 0 {
        0
    } else {
        let before = jumps_made(player, keys.drop_last());
        if player_run(player, keys.drop_last()).jumps(keys.last()) {
            before + 1
        } else {
            before
        }
    }
}

/// Over any run of ticks the jump count rises by one for each tick on
/// which a jump starts, and by nothing else.
pub proof fn lemma_jump_count_counts_jumps(player: Player, keys: Seq<Keys>)
    requires
        player.jump_count + keys.len() <= u64::MAX,
    ensures
        player_run(player, keys).jump_count == player.jump_count + jumps_made(player, keys),
        jumps_made(player, keys) <= keys.len(),
    decreases keys.len(),
{
    if keys.len() > 0 {
        lemma_jump_count_counts_jumps(player, keys.drop_last());
    }
}

/// The jump count never falls: after any part of a run it is at most
/// what it is after the whole run.
pub proof fn lemma_jump_count_never_falls(player: Player, keys: Seq<Keys>, k: int)
    requires
        player.jump_count + keys.len() <= u64::MAX,
        0 <= k <= keys.len(),
    ensures
        player_run(player, keys.take(k)).jump_count <= player_run(player, keys).jump_count,
    decreases keys.len(),
{
    if k == keys.len() {
        assert(keys.take(k) =~= keys);
    } else {
        lemma_jump_count_never_falls(player, keys.drop_last(), k);
        assert(keys.drop_last().take(k) =~= keys.take(k));
        lemma_jump_count_counts_jumps(player, keys.drop_last());
    }
}

/// A character in the air makes no jump, whatever keys are held.
pub proof fn lemma_airborne_ignores_jump_key(player: Player, keys: Keys)
    requires
        player.body.vel_i != 0,
    ensures
        !player.jumps(keys),
        player_next(player, keys).jump_count == player.jump_count,
{
}

/// A jump from the floor or above takes the character into the air at
/// once, so that the next tick cannot start another.
pub proof fn lemma_jump_leaves_the_ground(player: Player, keys: Keys, held: Keys)
    requires
        player.body.i >= FLOOR,
        player.jumps(keys),
    ensures
        player_next(player, keys).body.vel_i == JUMP_IMPULSE - FALL_STEP,
        !player_next(player, keys).jumps(held),
{
}

/// However long the jump key is held, as long as the character is in
/// the air at the start of every tick but the first, at most one jump is
/// counted.
pub proof fn lemma_held_jump_counts_once(player: Player, keys: Seq<Keys>)
    requires
        forall|k: int| 1 <= k < keys.len() ==> player_run(player, #[trigger] keys.take(k)).body.vel_i != 0,
    ensures
        jumps_made(player, keys) <= 1,
    decreases keys.len(),
{
    if keys.len() >= 2 {
        let shorter = keys.drop_last();
        assert forall|k: int| 1 <= k < shorter.len() implies player_run(
            player,
            #[trigger] shorter.take(k),
        ).body.vel_i != 0 by {
            assert(shorter.take(k) =~= keys.take(k));
        }
        lemma_held_jump_counts_once(player, shorter);
        assert(keys.take(keys.len() - 1) =~= shorter);
    } else if keys.len() == 1 {
        assert(jumps_made(player, keys.drop_last()) == 0);
    }
}

/// After a tick the character is never below the floor.
pub proof fn lemma_floor_holds(player: Player, keys: Keys)
    ensures
        player_next(player, keys).body.i >= FLOOR,
{
}

/// Nor is it after any run of at least one tick.
pub proof fn lemma_floor_holds_throughout(player: Player, keys: Seq<Keys>)
    requires
        keys.len() > 0,
    ensures
        player_run(player, keys).body.i >= FLOOR,
{
    lemma_floor_holds(player_run(player, keys.drop_last()), keys.last());
}

} // verus!
