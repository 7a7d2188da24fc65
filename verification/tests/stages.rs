use haskell_hop::player::{Dir, Player};
use haskell_hop::texter::{elapsed, texter_state, State, Texter};
use haskell_hop::world::PhysicsBody;

fn with_count(jump_count: u64) -> Player {
    Player {
        entity: None,
        body: PhysicsBody { i: 0, j: 0, vel_i: 0, vel_j: 0, scale: 1 },
        jump_count,
        dir: Dir::RIGHT,
    }
}

#[test]
fn the_display_starts_sound() {
    assert_eq!(State::default(), State::DEFAULT);
}

#[test]
fn elapsed_time_never_runs_backwards() {
    assert_eq!(elapsed(1_500, 500), 1_000);
    assert_eq!(elapsed(500, 500), 0);
    assert_eq!(elapsed(499, 500), 0);
    assert_eq!(elapsed(u64::MAX, 0), u64::MAX);
}

#[test]
fn nothing_happens_at_ordinary_counts() {
    for count in [0u64, 1, 68, 70, 79] {
        let mut texter = Texter { time_save: 3, state: State::DEFAULT };
        texter_state(&with_count(count), 9_000, &mut texter);
        assert_eq!(texter, Texter { time_save: 3, state: State::DEFAULT });
    }
}

#[test]
fn the_celebration_lasts_a_second() {
    let player = with_count(69);
    let start = 5_000;
    let mut texter = Texter { time_save: 0, state: State::DEFAULT };
    texter_state(&player, start, &mut texter);
    assert_eq!(texter, Texter { time_save: start, state: State::NICE });
    texter_state(&player, start + 1, &mut texter);
    assert_eq!(texter, Texter { time_save: start, state: State::NICE });
    texter_state(&player, start + 999, &mut texter);
    assert_eq!(texter, Texter { time_save: start, state: State::NICE });
    texter_state(&player, start + 1_001, &mut texter);
    assert_eq!(texter.state, State::DEFAULT);
}

#[test]
fn the_celebration_ends_on_the_second_exactly() {
    let mut texter = Texter { time_save: 5_000, state: State::NICE };
    texter_state(&with_count(69), 6_000, &mut texter);
    assert_eq!(texter, Texter { time_save: 5_000, state: State::DEFAULT });
}

#[test]
fn the_celebration_ends_whatever_the_count() {
    let mut texter = Texter { time_save: 5_000, state: State::NICE };
    texter_state(&with_count(70), 5_500, &mut texter);
    assert_eq!(texter.state, State::NICE);
    texter_state(&with_count(70), 6_500, &mut texter);
    assert_eq!(texter.state, State::DEFAULT);
}

#[test]
fn a_clock_behind_the_start_ends_nothing() {
    let mut texter = Texter { time_save: 5_000, state: State::NICE };
    texter_state(&with_count(69), 10, &mut texter);
    assert_eq!(texter, Texter { time_save: 5_000, state: State::NICE });
}

#[test]
fn eighty_jumps_corrupt_at_once() {
    let mut texter = Texter { time_save: 0, state: State::DEFAULT };
    texter_state(&with_count(80), 7_000, &mut texter);
    assert_eq!(texter, Texter { time_save: 7_000, state: State::CORRUPT_A });
    let mut later = Texter { time_save: 0, state: State::DEFAULT };
    texter_state(&with_count(u64::MAX), 1, &mut later);
    assert_eq!(later, Texter { time_save: 1, state: State::CORRUPT_A });
}

#[test]
fn a_celebration_that_ends_late_gives_way_to_corruption_in_one_step() {
    let mut texter = Texter { time_save: 1_000, state: State::NICE };
    texter_state(&with_count(80), 1_500, &mut texter);
    assert_eq!(texter, Texter { time_save: 1_000, state: State::NICE });
    texter_state(&with_count(80), 2_000, &mut texter);
    assert_eq!(texter, Texter { time_save: 2_000, state: State::CORRUPT_A });
}

#[test]
fn corruption_is_never_undone() {
    for state in [State::CORRUPT_A, State::CORRUPT_B, State::JAVA] {
        for count in [0u64, 69, 79, 80, 1_000] {
            for now in [0u64, 999, 1_000, 50_000] {
                let mut texter = Texter { time_save: 10, state };
                texter_state(&with_count(count), now, &mut texter);
                assert_eq!(texter, Texter { time_save: 10, state });
            }
        }
    }
}
