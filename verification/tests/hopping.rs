use haskell_hop::colour::Colour;
use haskell_hop::fixed::UNIT;
use haskell_hop::player::{
    player_move, Dir, Player, PlayerFrame, FALL_STEP, FLOOR, JUMP_IMPULSE, PLAYER_SCALE,
};
use haskell_hop::sink::{Keys, SpriteUpdate, TransformUpdate};
use haskell_hop::world::PhysicsBody;

const IDLE: Keys = Keys { jump: false, left: false, right: false };
const JUMP: Keys = Keys { jump: true, left: false, right: false };
const RIGHT: Keys = Keys { jump: false, left: false, right: true };
const LEFT: Keys = Keys { jump: false, left: true, right: false };

fn resting() -> Player {
    Player {
        entity: None,
        body: PhysicsBody { i: FLOOR, j: -450 * UNIT, vel_i: 0, vel_j: 0, scale: PLAYER_SCALE },
        jump_count: 0,
        dir: Dir::RIGHT,
    }
}

#[test]
fn facing_defaults_to_the_right() {
    assert_eq!(Dir::default(), Dir::RIGHT);
}

#[test]
fn the_floor_is_a_tenth_above_the_lower_edge() {
    assert_eq!(FLOOR, -(500 * UNIT / 2) + 500 * UNIT / 10);
}

#[test]
fn a_jump_counts_once_and_lifts() {
    let mut player = resting();
    player_move(&JUMP, &mut player);
    assert_eq!(player.jump_count, 1);
    assert_eq!(player.body.i, FLOOR + JUMP_IMPULSE);
    assert_eq!(player.body.vel_i, JUMP_IMPULSE - FALL_STEP);
    assert_eq!(player.body.vel_i, 9_019_000);
}

#[test]
fn holding_jump_in_the_air_counts_nothing() {
    let mut player = resting();
    player_move(&JUMP, &mut player);
    for _ in 0..20 {
        assert!(player.body.vel_i != 0);
        player_move(&JUMP, &mut player);
        assert_eq!(player.jump_count, 1);
    }
}

#[test]
fn one_jump_per_landing_while_held() {
    let mut player = resting();
    let mut jumped_at = Vec::new();
    for tick in 0..60 {
        let before = player.jump_count;
        player_move(&JUMP, &mut player);
        assert!(player.jump_count >= before);
        assert!(player.jump_count <= before + 1);
        if player.jump_count > before {
            jumped_at.push(tick);
        }
    }
    assert_eq!(jumped_at, vec![0, 22, 44]);
    assert_eq!(player.jump_count, 3);
    assert_eq!(player.body.i, -157_720_000);
    assert_eq!(player.body.vel_i, -5_696_000);
}

#[test]
fn no_jump_without_the_key() {
    let mut player = resting();
    for _ in 0..10 {
        player_move(&RIGHT, &mut player);
    }
    assert_eq!(player.jump_count, 0);
}

#[test]
fn a_jump_starts_at_the_top_of_an_arc() {
    let mut player = resting();
    player.body.i = 0;
    player.body.vel_i = 0;
    player_move(&JUMP, &mut player);
    assert_eq!(player.jump_count, 1);
    assert_eq!(player.body.i, JUMP_IMPULSE);
}

#[test]
fn never_below_the_floor() {
    let mut player = resting();
    player.body.i = FLOOR - 77 * UNIT;
    player.body.vel_i = -3 * UNIT;
    player_move(&IDLE, &mut player);
    assert_eq!(player.body.i, FLOOR);
    assert_eq!(player.body.vel_i, 0);
    let mut falling = resting();
    falling.body.i = 100 * UNIT;
    for _ in 0..500 {
        player_move(&IDLE, &mut falling);
        assert!(falling.body.i >= FLOOR);
    }
    assert_eq!(falling.body.i, FLOOR);
}

#[test]
fn a_fall_from_the_far_end_of_the_range_lands() {
    let mut player = resting();
    player.body.i = i64::MIN;
    player.body.vel_i = i64::MIN;
    player_move(&IDLE, &mut player);
    assert_eq!(player.body.i, FLOOR);
    let mut high = resting();
    high.body.i = i64::MAX;
    high.body.vel_i = i64::MAX;
    player_move(&IDLE, &mut high);
    assert_eq!(high.body.i, i64::MAX);
    assert_eq!(high.body.vel_i, i64::MAX - FALL_STEP);
}

#[test]
fn at_rest_gravity_and_floor_alternate() {
    let mut player = resting();
    player_move(&IDLE, &mut player);
    assert_eq!(player.body.i, FLOOR);
    assert_eq!(player.body.vel_i, -FALL_STEP);
    player_move(&IDLE, &mut player);
    assert_eq!(player.body.i, FLOOR);
    assert_eq!(player.body.vel_i, 0);
}

#[test]
fn running_right_with_friction_on_touchdown() {
    let mut player = resting();
    player_move(&RIGHT, &mut player);
    assert_eq!((player.body.j, player.body.vel_j), (-449_600_000, 400_000));
    player_move(&RIGHT, &mut player);
    assert_eq!((player.body.j, player.body.vel_j), (-448_800_000, 560_000));
    player_move(&RIGHT, &mut player);
    assert_eq!((player.body.j, player.body.vel_j), (-447_840_000, 960_000));
    player_move(&RIGHT, &mut player);
    assert_eq!((player.body.j, player.body.vel_j), (-446_480_000, 952_000));
    assert_eq!(player.dir, Dir::RIGHT);
}

#[test]
fn friction_rounds_toward_zero_both_ways() {
    let mut player = resting();
    player.body.vel_i = -FALL_STEP;
    player.body.vel_j = -13;
    player_move(&IDLE, &mut player);
    assert_eq!(player.body.vel_j, -9);
    let mut other = resting();
    other.body.vel_i = -FALL_STEP;
    other.body.vel_j = 13;
    player_move(&IDLE, &mut other);
    assert_eq!(other.body.vel_j, 9);
}

#[test]
fn running_left_turns_the_character() {
    let mut player = resting();
    player_move(&LEFT, &mut player);
    assert_eq!(player.dir, Dir::LEFT);
    assert_eq!(player.body.vel_j, -400_000);
    assert_eq!(player.body.j, -450_400_000);
    player_move(&IDLE, &mut player);
    assert_eq!(player.dir, Dir::LEFT);
}

#[test]
fn both_directions_cancel_and_face_left() {
    let mut player = resting();
    let both = Keys { jump: false, left: true, right: true };
    player_move(&both, &mut player);
    assert_eq!(player.body.vel_j, 0);
    assert_eq!(player.body.j, -450 * UNIT);
    assert_eq!(player.dir, Dir::LEFT);
}

#[test]
fn no_sprite_no_frame() {
    let mut player = resting();
    assert_eq!(player_move(&IDLE, &mut player), None);
}

#[test]
fn the_frame_places_and_flips_the_sprite() {
    let mut player = resting();
    player.entity = Some(11);
    let frame = player_move(&LEFT, &mut player);
    assert_eq!(
        frame,
        Some(PlayerFrame {
            transform: TransformUpdate {
                entity: 11,
                i: FLOOR,
                j: -450_400_000,
                scale: PLAYER_SCALE
            },
            sprite: SpriteUpdate {
                entity: 11,
                flip_x: true,
                colour: Colour::rgba(1_000_000, 1_000_000, 1_000_000, 1_000_000)
            },
        })
    );
    let frame = player_move(&RIGHT, &mut player).unwrap();
    assert!(!frame.sprite.flip_x);
}

#[test]
fn scale_is_never_touched() {
    let mut player = resting();
    for keys in [JUMP, RIGHT, LEFT, IDLE, JUMP] {
        player_move(&keys, &mut player);
        assert_eq!(player.body.scale, PLAYER_SCALE);
    }
}
