//! The narrative state of the score display, and the rules by which the
//! jump count and the clock move it.

use crate::player::Player;
use vstd::prelude::*;

verus! {

/// The jump count that is celebrated.
pub const NICE_COUNT: u64 = 69;

/// Milliseconds a celebration lasts.
pub const NICE_HOLD_MS: u64 = 1000;

/// The jump count from which the display corrupts.
pub const CORRUPT_COUNT: u64 = 80;

/// The stages of the score display. The three `CORRUPT_A`, `CORRUPT_B`
/// and `JAVA` are the corrupted ones, entered in that order and never
/// left again.
#[allow(non_camel_case_types)]
#[derive(Clone, Copy, Debug, PartialEq, Eq, Structural)]
pub enum State {
    NICE,
    DEFAULT,
    CORRUPT_B,
    CORRUPT_A,
    JAVA,
}

impl Default for State {
    fn default() -> (state: State)
        ensures
            state == State::DEFAULT,
    {
        State::DEFAULT
    }
}

impl State {
    /// How far the corruption has gone: zero before it starts.
    pub open spec fn depth(self) -> nat {
        match self {
            State::DEFAULT | State::NICE => 0,
            State::CORRUPT_A => 1,
            State::CORRUPT_B => 2,
            State::JAVA => 3,
        }
    }

    /// Whether the stage is one of the corrupted ones.
    pub open spec fn corrupted(self) -> bool {
        self.depth() > 0
    }

    /// The steps the stages can take: a stage may last; the celebration
    /// starts and ends; the corruption starts from either of the two
    /// sound stages and then only deepens, one stage at a time.
    pub open spec fn may_follow(self, next: State) -> bool {
        match self {
            State::DEFAULT => next == State::DEFAULT || next == State::NICE || next
                == State::CORRUPT_A,
            State::NICE => next == State::NICE || next == State::DEFAULT || next
                == State::CORRUPT_A,
            State::CORRUPT_A => next == State::CORRUPT_A || next == State::CORRUPT_B,
            State::CORRUPT_B => next == State::CORRUPT_B || next == State::JAVA,
            State::JAVA => next == State::JAVA,
        }
    }
}

/// The state register: the stage, and the time in milliseconds at which
/// the stage began.
#[derive(Clone, Copy, Debug, PartialEq, Eq, Structural)]
pub struct Texter {
    pub time_save: u64,
    pub state: State,
}

/// Milliseconds passed at `now` since `since`; zero if the clock reads
/// earlier than `since`.
pub open spec fn spec_elapsed(now: u64, since: u64) -> u64 {
    if now >= since {
        (now - since) as u64
    } else {
        0
    }
}

/// Milliseconds passed at `now` since `since`.
#[verifier::when_used_as_spec(spec_elapsed)]
pub fn elapsed(now: u64, since: u64) -> (ms: u64)
    ensures
        ms == spec_elapsed(now, since),
{
    if now >= since {
        now - since
    } else {
        0
    }
}

/// The register after the celebration rules: the celebrated count starts
/// a celebration from the default stage, and a celebration ends once it
/// has lasted `NICE_HOLD_MS`.
pub open spec fn celebrated(texter: Texter, jump_count: u64, now: u64) -> Texter {
    if jump_count == NICE_COUNT && texter.state == State::DEFAULT {
        Texter { state: State::NICE, time_save: now }
    } else if texter.state == State::NICE && elapsed(now, texter.time_save) >= NICE_HOLD_MS {
        Texter { state: State::DEFAULT, ..texter }
    } else {
        texter
    }
}

/// The register after one evaluation of the rules at `now`: first the
/// celebration rules, then, from the default stage, a count of
/// `CORRUPT_COUNT` or more starts the corruption.
pub open spec fn texter_next(texter: Texter, jump_count: u64, now: u64) -> Texter {
    let settled = celebrated(texter, jump_count, now);
    if jump_count >= CORRUPT_COUNT && settled.state == State::DEFAULT {
        Texter { state: State::CORRUPT_A, time_save: now }
    } else {
        settled
    }
}

/// Evaluates the rules of the state register once.
pub fn texter_state(player: &Player, now: u64, texter: &mut Texter)
    ensures
        *final(texter) == texter_next(*old(texter), player.jump_count, now),
        old(texter).state.may_follow(final(texter).state),
{
    if player.jump_count == NICE_COUNT && texter.state == State::DEFAULT {
        texter.state = State::NICE;
        texter.time_save = now;
    } else if texter.state == State::NICE && elapsed(now, texter.time_save) >= NICE_HOLD_MS {
        texter.state = State::DEFAULT;
    }
    if player.jump_count >= CORRUPT_COUNT && texter.state == State::DEFAULT {
        texter.state = State::CORRUPT_A;
        texter.time_save = now;
    }
}

/// The register after the rules have been evaluated at each of `times`
/// in turn, with the jump count staying what it is.
pub open spec fn texter_run(texter: Texter, jump_count: u64, times: Seq<u64>) -> Texter
    decreases times.len(),
{
    if times.len() == 0 {
        texter
    } else {
        texter_next(texter_run(texter, jump_count, times.drop_last()), jump_count, times.last())
    }
}

/// The rules take only steps that `may_follow` allows.
pub proof fn lemma_rules_follow(texter: Texter, jump_count: u64, now: u64)
    ensures
        texter.state.may_follow(texter_next(texter, jump_count, now).state),
{
}

/// Once corrupted, always corrupted: along any sequence of stages in
/// which each follows the one before, a corrupted stage is followed only
/// by corrupted stages, none of them less deep.
pub proof fn lemma_corruption_lasts(trace: Seq<State>, from: int, to: int)
    requires
        forall|k: int| 0 <= k < trace.len() - 1 ==> (#[trigger] trace[k]).may_follow(trace[k + 1]),
        0 <= from <= to < trace.len(),
        trace[from].corrupted(),
    ensures
        trace[to].corrupted(),
        trace[to].depth() >= trace[from].depth(),
    decreases to - from,
{
    if from < to {
        lemma_corruption_lasts(trace, from, to - 1);
        assert(trace[to - 1].may_follow(trace[to - 1 + 1]));
    }
}

/// The celebrated count starts a celebration from the default stage, and
/// the celebration is timed from that moment.
pub proof fn lemma_celebration_starts(texter: Texter, now: u64)
    requires
        texter.state == State::DEFAULT,
    ensures
        texter_next(texter, NICE_COUNT, now) == (Texter { state: State::NICE, time_save: now }),
{
}

/// While the count stays at the celebrated one, a celebration lasts
/// until the first evaluation that comes `NICE_HOLD_MS` or more after it
/// started, and that evaluation ends it.
pub proof fn lemma_celebration_timer(texter: Texter, times: Seq<u64>, late: u64)
    requires
        texter.state == State::NICE,
        forall|k: int|
            0 <= k < times.len() ==> elapsed(#[trigger] times[k], texter.time_save) < NICE_HOLD_MS,
        elapsed(late, texter.time_save) >= NICE_HOLD_MS,
    ensures
        texter_run(texter, NICE_COUNT, times) == texter,
        texter_run(texter, NICE_COUNT, times.push(late)).state == State::DEFAULT,
    decreases times.len(),
{
    if times.len() > 0 {
        let earlier = times.drop_last();
        lemma_celebration_timer(texter, earlier, late);
    }
    assert(times.push(late).drop_last() =~= times);
}

} // verus!
