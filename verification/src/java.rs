//! The antagonist and the projectiles it drops.
//!
//! Once the corruption has run its course the antagonist paces between
//! two rails near the window's edges. At fixed intervals it picks a new
//! heading at random and lets a projectile go, which then drifts down
//! until it has left the window.

use crate::chance::draw;
use crate::colour::{Colour, FULL};
use crate::fixed::{magnitude, sat, sat_abs, sat_add, scale, scaled, UNIT};
use crate::sink::{SpawnRequest, TransformUpdate};
use crate::texter::{elapsed, State, Texter};
use crate::world::{PhysicsBody, WINDOW_WIDTH};
use vstd::prelude::*;

verus! {

/// Asset path of the antagonist's texture.
pub const JAVA_TEXTURE: &'static str = "textures/java.png";

/// Asset path of a projectile's texture.
pub const APPLE_TEXTURE: &'static str = "textures/apple.png";

/// The rails, a tenth of the window's width inside its edges: at or
/// beyond one, the antagonist heads back inward.
pub const LEFT_RAIL: i64 = -400 * UNIT;

/// The right rail.
pub const RIGHT_RAIL: i64 = 400 * UNIT;

/// Where the rails lie in the window.
pub proof fn lemma_rails()
    ensures
        LEFT_RAIL == -(WINDOW_WIDTH / 2) + WINDOW_WIDTH / 10,
        RIGHT_RAIL == WINDOW_WIDTH / 2 - WINDOW_WIDTH / 10,
{
}

/// Speed at which the antagonist paces.
pub const JAVA_SPEED: i64 = 5 * UNIT;

/// Vertical velocity of a projectile.
pub const DRIFT: i64 = -UNIT;

/// A projectile has the antagonist's scale divided by this.
pub const OBJ_SHRINK: i64 = 5;

/// Milliseconds between two launches.
pub const LAUNCH_PERIOD_MS: u64 = 2000;

/// A projectile: a body, and the handle of its sprite once there is one.
#[derive(Clone, Copy, Debug, PartialEq, Eq, Structural)]
pub struct Obj {
    pub entity: Option<u64>,
    pub body: PhysicsBody,
}

/// The antagonist: a body that paces along the top of the window, the
/// colour its sprite fades in with, the time of its last launch, and the
/// projectiles in flight, oldest first. `entity` is the handle of its
/// sprite, absent until one has been made.
#[derive(Debug, PartialEq, Eq)]
pub struct Java {
    pub entity: Option<u64>,
    pub colour: Colour,
    pub body: PhysicsBody,
    pub time_save: u64,
    pub obj_vec: Vec<Obj>,
}

/// The antagonist as a value.
pub struct JavaModel {
    pub entity: Option<u64>,
    pub colour: Colour,
    pub body: PhysicsBody,
    pub time_save: u64,
    pub objs: Seq<Obj>,
}

impl View for Java {
    type V = JavaModel;

    open spec fn view(&self) -> JavaModel {
        JavaModel {
            entity: self.entity,
            colour: self.colour,
            body: self.body,
            time_save: self.time_save,
            objs: self.obj_vec@,
        }
    }
}

/// What one call of `java_move` tells the renderer: the projectile to
/// create, if one was launched; where each projectile that has a sprite
/// now is, oldest first, and last where the antagonist is; and the
/// handles of the sprites whose projectiles have left the window.
#[derive(Debug, PartialEq, Eq)]
pub struct JavaFrame {
    pub spawn: Option<SpawnRequest>,
    pub transforms: Vec<TransformUpdate>,
    pub despawned: Vec<u64>,
}

/// A frame as a value.
pub struct JavaFrameModel {
    pub spawn: Option<SpawnRequest>,
    pub transforms: Seq<TransformUpdate>,
    pub despawned: Seq<u64>,
}

impl View for JavaFrame {
    type V = JavaFrameModel;

    open spec fn view(&self) -> JavaFrameModel {
        JavaFrameModel {
            spawn: self.spawn,
            transforms: self.transforms@,
            despawned: self.despawned@,
        }
    }
}

impl Obj {
    /// The projectile one tick later. One without a sprite stays where it
    /// is.
    pub open spec fn drifted(self) -> Obj {
        if self.entity is Some {
            Obj { body: self.body.moved(), ..self }
        } else {
            self
        }
    }

    /// The projectile one tick later, if it is then still in the window.
    pub open spec fn survivor(self) -> Option<Obj> {
        if self.drifted().body.in_view() {
            Some(self.drifted())
        } else {
            None
        }
    }

    /// Where the projectile's sprite is one tick later, if it has one and
    /// is then still in the window.
    pub open spec fn placement(self) -> Option<TransformUpdate> {
        match self.entity {
            Some(entity) if self.drifted().body.in_view() => Some(
                TransformUpdate {
                    entity,
                    i: self.drifted().body.i,
                    j: self.drifted().body.j,
                    scale: self.body.scale,
                },
            ),
            _ => None,
        }
    }

    /// The handle of the projectile's sprite, if it has one and has left
    /// the window one tick later.
    pub open spec fn casualty(self) -> Option<u64> {
        if self.drifted().body.in_view() {
            None
        } else {
            self.entity
        }
    }
}

impl Java {
    /// Takes note of the handle of a new projectile sprite. It goes to
    /// the youngest projectile, which is the one the sprite was asked
    /// for; if there is no projectile, or the youngest has a sprite
    /// already, nothing changes and `false` is returned.
    pub fn adopt_obj(&mut self, handle: u64) -> (adopted: bool)
        ensures
            adopted == (old(self)@.objs.len() > 0 && old(self)@.objs.last().entity is None),
            adopted ==> final(self)@ == (JavaModel {
                objs: old(self)@.objs.update(
                    old(self)@.objs.len() - 1,
                    Obj { entity: Some(handle), ..old(self)@.objs.last() },
                ),
                ..old(self)@
            }),
            !adopted ==> final(self)@ == old(self)@,
            old(self)@.wf() ==> final(self)@.wf(),
    {
        let n: usize = self.obj_vec.len();
        if n == 0 {
            return false;
        }
        let youngest: Obj = self.obj_vec[n - 1];
        match youngest.entity {
            Some(_) => false,
            None => {
                self.obj_vec.set(n - 1, Obj { entity: Some(handle), body: youngest.body });
                true
            },
        }
    }
}

/// The projectiles that are still in the window one tick later, moved.
pub open spec fn survivors(objs: Seq<Obj>) -> Seq<Obj> {
    objs.filter_map(|obj: Obj| obj.survivor())
}

/// Where the sprites of those projectiles are.
pub open spec fn placements(objs: Seq<Obj>) -> Seq<TransformUpdate> {
    objs.filter_map(|obj: Obj| obj.placement())
}

/// The handles of the sprites whose projectiles have left the window one
/// tick later.
pub open spec fn casualties(objs: Seq<Obj>) -> Seq<u64> {
    objs.filter_map(|obj: Obj| obj.casualty())
}

impl JavaModel {
    /// The antagonist moves only in the last stage, and only once it has
    /// a sprite.
    pub open spec fn acts(self, state: State) -> bool {
        state == State::JAVA && self.entity is Some
    }

    /// Whether a launch is due at `now`.
    pub open spec fn launches(self, now: u64) -> bool {
        elapsed(now, self.time_save) >= LAUNCH_PERIOD_MS
    }

    /// The projectile a launch lets go: at the antagonist's position,
    /// drifting straight down, without a sprite yet.
    pub open spec fn fresh(self) -> Obj {
        Obj {
            entity: None,
            body: PhysicsBody {
                i: self.body.i,
                j: self.body.j,
                vel_i: DRIFT,
                vel_j: 0,
                scale: scaled(self.body.scale, 1, OBJ_SHRINK),
            },
        }
    }

    /// The request for the sprite of that projectile.
    pub open spec fn fresh_request(self) -> SpawnRequest {
        SpawnRequest {
            texture: APPLE_TEXTURE,
            i: self.body.i,
            j: self.body.j,
            scale: scaled(self.body.scale, 1, OBJ_SHRINK),
            flip_x: true,
            colour: Colour::white(),
        }
    }

    /// The projectiles in flight once a due launch has been made.
    pub open spec fn in_flight(self, now: u64) -> Seq<Obj> {
        if self.launches(now) {
            self.objs.push(self.fresh())
        } else {
            self.objs
        }
    }

    /// The horizontal velocity for this tick. A launch takes the drawn
    /// velocity; at or beyond a rail the velocity points back inward.
    pub open spec fn steered(self, now: u64, drawn: i64) -> i64 {
        let velocity = if self.launches(now) {
            drawn
        } else {
            self.body.vel_j
        };
        if self.body.j <= LEFT_RAIL {
            magnitude(velocity)
        } else if self.body.j >= RIGHT_RAIL {
            (-magnitude(velocity)) as i64
        } else {
            velocity
        }
    }

    /// The antagonist's body after this tick.
    pub open spec fn paced(self, now: u64, drawn: i64) -> PhysicsBody {
        PhysicsBody {
            j: sat(self.body.j + self.steered(now, drawn)),
            vel_j: self.steered(now, drawn),
            ..self.body
        }
    }

    /// Every body has a positive scale, and the antagonist's is large
    /// enough for that of its projectiles to be positive too.
    pub open spec fn wf(self) -> bool {
        &&& self.body.scale >= OBJ_SHRINK
        &&& forall|k: int| 0 <= k < self.objs.len() ==> (#[trigger] self.objs[k]).body.wf()
    }

    /// The antagonist keeps to its speed and to the stretch between the
    /// rails, widened at either end by what it covers in one tick.
    pub open spec fn on_rails(self) -> bool {
        &&& -JAVA_SPEED <= self.body.vel_j <= JAVA_SPEED
        &&& LEFT_RAIL - JAVA_SPEED <= self.body.j <= RIGHT_RAIL + JAVA_SPEED
    }
}

/// The antagonist after one tick in `state` at `now`, where `drawn` is
/// the velocity a launch would take.
pub open spec fn java_next(java: JavaModel, state: State, now: u64, drawn: i64) -> JavaModel {
    if java.acts(state) {
        JavaModel {
            body: java.paced(now, drawn),
            time_save: if java.launches(now) {
                now
            } else {
                java.time_save
            },
            objs: survivors(java.in_flight(now)),
            ..java
        }
    } else {
        java
    }
}

/// What that tick tells the renderer.
pub open spec fn java_frame(java: JavaModel, state: State, now: u64, drawn: i64) -> JavaFrameModel {
    if java.acts(state) {
        JavaFrameModel {
            spawn: if java.launches(now) {
                Some(java.fresh_request())
            } else {
                None
            },
            transforms: placements(java.in_flight(now)).push(
                TransformUpdate {
                    entity: java.entity->0,
                    i: java.body.i,
                    j: java.paced(now, drawn).j,
                    scale: java.body.scale,
                },
            ),
            despawned: casualties(java.in_flight(now)),
        }
    } else {
        JavaFrameModel { spawn: None, transforms: Seq::empty(), despawned: Seq::empty() }
    }
}

/// The antagonist turns at the rails and nowhere else: at or beyond the
/// left rail it heads right, at or beyond the right rail it heads left,
/// and only the sign of its velocity changes there; between the rails,
/// on a tick without a launch, its velocity stays what it was. Keeping
/// to its speed, it is never carried beyond a rail by more than what it
/// covers in one tick.
pub proof fn lemma_bounce(java: JavaModel, now: u64, drawn: i64)
    requires
        java.on_rails(),
        -JAVA_SPEED <= drawn <= JAVA_SPEED,
    ensures
        java.body.j <= LEFT_RAIL ==> java.steered(now, drawn) >= 0,
        java.body.j >= RIGHT_RAIL ==> java.steered(now, drawn) <= 0,
        LEFT_RAIL < java.body.j < RIGHT_RAIL && !java.launches(now) ==> java.steered(now, drawn)
            == java.body.vel_j,
        !java.launches(now) ==> magnitude(java.steered(now, drawn)) == magnitude(java.body.vel_j),
        java.launches(now) ==> magnitude(java.steered(now, drawn)) == magnitude(drawn),
        java.paced(now, drawn).j == java.body.j + java.steered(now, drawn),
        LEFT_RAIL - JAVA_SPEED <= java.paced(now, drawn).j <= RIGHT_RAIL + JAVA_SPEED,
        -JAVA_SPEED <= java.paced(now, drawn).vel_j <= JAVA_SPEED,
{
}

/// The velocities a launch draws from.
pub open spec fn headings() -> Seq<i64> {
    let leftward = (-JAVA_SPEED) as i64;
    seq![leftward, JAVA_SPEED]
}

/// One tick of the antagonist, with the velocity a launch would take
/// handed in.
pub fn java_move_with(java: &mut Java, texter: &Texter, now: u64, drawn: i64) -> (frame: JavaFrame)
    ensures
        final(java)@ == java_next(old(java)@, texter.state, now, drawn),
        frame@ == java_frame(old(java)@, texter.state, now, drawn),
        old(java)@.on_rails() && -JAVA_SPEED <= drawn <= JAVA_SPEED ==> final(java)@.on_rails(),
        old(java)@.wf() ==> final(java)@.wf(),
{
    let mut spawn: Option<SpawnRequest> = None;
    let mut transforms: Vec<TransformUpdate> = Vec::new();
    let mut despawned: Vec<u64> = Vec::new();
    let entity: u64 = match (texter.state, java.entity) {
        (State::JAVA, Some(entity)) => entity,
        _ => {
            return JavaFrame { spawn, transforms, despawned };
        },
    };
    if elapsed(now, java.time_save) >= LAUNCH_PERIOD_MS {
        let small: i64 = scale(java.body.scale, 1, OBJ_SHRINK);
        let obj = Obj {
            entity: None,
            body: PhysicsBody { i: java.body.i, j: java.body.j, vel_i: DRIFT, vel_j: 0, scale: small },
        };
        spawn = Some(
            SpawnRequest {
                texture: APPLE_TEXTURE,
                i: java.body.i,
                j: java.body.j,
                scale: small,
                flip_x: true,
                colour: Colour::rgb(FULL, FULL, FULL),
            },
        );
        java.body.vel_j = drawn;
        java.time_save = now;
        java.obj_vec.push(obj);
    }
    let ghost flying: Seq<Obj> = java.obj_vec@;
    assert(flying == old(java)@.in_flight(now));
    let mut kept: Vec<Obj> = Vec::new();
    let mut k: usize = 0;
    while k < java.obj_vec.len()
        invariant
            k <= flying.len(),
            java.obj_vec@ == flying,
            kept@ == survivors(flying.take(k as int)),
            transforms@ == placements(flying.take(k as int)),
            despawned@ == casualties(flying.take(k as int)),
            old(java)@.wf() ==> forall|n: int|
                0 <= n < flying.len() ==> (#[trigger] flying[n]).body.wf(),
            old(java)@.wf() ==> forall|n: int|
                0 <= n < kept@.len() ==> (#[trigger] kept@[n]).body.wf(),
            java.body.scale == old(java).body.scale,
        decreases flying.len() - k,
    {
        proof {
            flying.lemma_filter_map_take_succ(|obj: Obj| obj.survivor(), k as int);
            flying.lemma_filter_map_take_succ(|obj: Obj| obj.placement(), k as int);
            flying.lemma_filter_map_take_succ(|obj: Obj| obj.casualty(), k as int);
        }
        let mut obj: Obj = java.obj_vec[k];
        if obj.entity.is_some() {
            obj.body.integrate();
        }
        if obj.body.is_in_view() {
            kept.push(obj);
            match obj.entity {
                Some(handle) => {
                    transforms.push(
                        TransformUpdate {
                            entity: handle,
                            i: obj.body.i,
                            j: obj.body.j,
                            scale: obj.body.scale,
                        },
                    );
                },
                None => {},
            }
        } else {
            match obj.entity {
                Some(handle) => {
                    despawned.push(handle);
                },
                None => {},
            }
        }
        k += 1;
    }
    assert(flying.take(k as int) =~= flying);
    java.obj_vec = kept;
    if java.body.j <= LEFT_RAIL {
        java.body.vel_j = sat_abs(java.body.vel_j);
    } else if java.body.j >= RIGHT_RAIL {
        java.body.vel_j = -sat_abs(java.body.vel_j);
    }
    java.body.j = sat_add(java.body.j, java.body.vel_j);
    transforms.push(
        TransformUpdate { entity, i: java.body.i, j: java.body.j, scale: java.body.scale },
    );
    JavaFrame { spawn, transforms, despawned }
}

/// One tick of the antagonist. A launch draws its velocity at random
/// from `headings`.
pub fn java_move(java: &mut Java, texter: &Texter, now: u64) -> (frame: JavaFrame)
    ensures
        exists|drawn: i64|
            headings().contains(drawn) && final(java)@ == #[trigger] java_next(
                old(java)@,
                texter.state,
                now,
                drawn,
            ) && frame@ == java_frame(old(java)@, texter.state, now, drawn),
        old(java)@.on_rails() ==> final(java)@.on_rails(),
        old(java)@.wf() ==> final(java)@.wf(),
{
    let drawn: i64 = match (texter.state, java.entity) {
        (State::JAVA, Some(_)) if elapsed(now, java.time_save) >= LAUNCH_PERIOD_MS => {
            let mut rng = rand::thread_rng();
            let leftward: i64 = -JAVA_SPEED;
            let pool: Vec<i64> = vec![leftward, JAVA_SPEED];
            assert(pool@ =~= headings());
            draw(&pool, &mut rng).unwrap()
        },
        _ => JAVA_SPEED,
    };
    assert(headings()[1] == JAVA_SPEED);
    java_move_with(java, texter, now, drawn)
}

} // verus!
