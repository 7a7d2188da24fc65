//! The score display and its effects: what it reads, how it is coloured,
//! how fast it spins, how the background darkens, and the two steps of
//! the corruption that the display itself decides.
//!
//! `score_update` runs on every tick of the physics clock; `score_corrupt`
//! runs on a slower clock of its own and churns the scrambled text.

use crate::colour::{attenuated, lemma_attenuated_decreases, Colour, FADE_PERCENT, FULL, INVISIBLE};
use crate::java::{Java, JavaModel, JAVA_TEXTURE};
use crate::player::Player;
use crate::sink::{SpawnRequest, SpriteUpdate};
use crate::text::{
    celebrate, celebration, decimal, is_scramble, scramble, to_decimal, GLYPH_FIRST, SCRAMBLE_LEN,
};
use crate::texter::{elapsed, State, Texter};
use vstd::prelude::*;

verus! {

/// Degrees the display turns per tick while nothing is wrong.
pub const FAST_TURN: u16 = 5;

/// Degrees it turns per tick in the first stage of corruption.
pub const SLOW_TURN: u16 = 2;

/// Degrees in a revolution.
pub const FULL_TURN: u16 = 360;

/// How close to its starting orientation, in degrees, the display must
/// be for the corruption to break out.
pub const NEAR: u16 = 10;

/// Milliseconds the first stage of corruption lasts at least.
pub const CORRUPT_DWELL_MS: u64 = 2000;

/// The score display: its text, the colour of the text, and its rotation
/// in whole degrees, counted from its starting orientation.
#[derive(Debug, PartialEq, Eq)]
pub struct Score {
    pub text: Vec<u8>,
    pub colour: Colour,
    pub rotation: u16,
}

/// The score display as a value.
pub struct ScoreModel {
    pub text: Seq<u8>,
    pub colour: Colour,
    pub rotation: u16,
}

impl View for Score {
    type V = ScoreModel;

    open spec fn view(&self) -> ScoreModel {
        ScoreModel { text: self.text@, colour: self.colour, rotation: self.rotation }
    }
}

/// What one call of `score_update` tells the renderer beyond the display
/// and the background, which it reads where they are kept: a request to
/// create the antagonist's sprite, or the new look of that sprite.
#[derive(Clone, Copy, Debug, PartialEq, Eq)]
pub struct ScoreFrame {
    pub spawn: Option<SpawnRequest>,
    pub sprite: Option<SpriteUpdate>,
}

/// Degrees per tick the display turns in a stage.
pub open spec fn turn_rate(state: State) -> u16 {
    match state {
        State::CORRUPT_A => SLOW_TURN,
        State::CORRUPT_B => 0,
        _ => FAST_TURN,
    }
}

/// A rotation turned further by `rate` degrees.
pub open spec fn turned(rotation: u16, rate: u16) -> u16 {
    ((rotation + rate) % (FULL_TURN as int)) as u16
}

/// Whether a rotation is within `NEAR` degrees of the starting
/// orientation, from either side.
pub open spec fn near_origin(rotation: u16) -> bool {
    rotation <= NEAR || FULL_TURN - rotation <= NEAR
}

/// The display after the stage has painted it, before it turns. `bound`
/// tells whether the antagonist has a sprite.
pub open spec fn painted(score: ScoreModel, state: State, jump_count: u64, bound: bool) -> ScoreModel {
    match state {
        State::DEFAULT | State::CORRUPT_A => ScoreModel {
            text: decimal(jump_count as nat),
            colour: Colour::white(),
            ..score
        },
        State::NICE => ScoreModel { text: celebration(), colour: Colour::cyan(), ..score },
        State::CORRUPT_B => ScoreModel {
            colour: score.colour.faded(),
            rotation: if bound {
                score.rotation
            } else {
                0
            },
            ..score
        },
        State::JAVA => score,
    }
}

/// Whether the corruption breaks out on this tick: the first stage has
/// lasted `CORRUPT_DWELL_MS` and the display, after this tick's turn, is
/// back near its starting orientation.
pub open spec fn breaks_out(score: ScoreModel, texter: Texter, now: u64) -> bool {
    &&& texter.state == State::CORRUPT_A
    &&& near_origin(turned(score.rotation, SLOW_TURN))
    &&& elapsed(now, texter.time_save) >= CORRUPT_DWELL_MS
}

/// The display after one tick. `glyphs` is the text it takes on if the
/// corruption breaks out.
pub open spec fn score_next(
    score: ScoreModel,
    texter: Texter,
    jump_count: u64,
    bound: bool,
    now: u64,
    glyphs: Seq<u8>,
) -> ScoreModel {
    let shown = painted(score, texter.state, jump_count, bound);
    let rotation = turned(shown.rotation, turn_rate(texter.state));
    if breaks_out(score, texter, now) {
        ScoreModel { text: glyphs, colour: Colour::green().with_alpha(shown.colour.a), rotation }
    } else {
        ScoreModel { rotation, ..shown }
    }
}

/// The state register after one tick of the display.
pub open spec fn texter_turned(texter: Texter, score: ScoreModel, now: u64) -> Texter {
    if breaks_out(score, texter, now) {
        Texter { state: State::CORRUPT_B, ..texter }
    } else {
        texter
    }
}

/// The background after one tick: it darkens in the first two stages of
/// corruption.
pub open spec fn background_next(background: Colour, state: State) -> Colour {
    match state {
        State::CORRUPT_A | State::CORRUPT_B => background.darkened(),
        _ => background,
    }
}

/// The antagonist's colour after one tick: once it has a sprite, it
/// solidifies from the second stage of corruption on.
pub open spec fn tint_next(java: JavaModel, state: State) -> Colour {
    match state {
        State::CORRUPT_B | State::JAVA => if java.entity is Some {
            java.colour.solidified()
        } else {
            java.colour
        },
        _ => java.colour,
    }
}

/// The request for the antagonist's sprite: made in the second stage of
/// corruption for as long as it has none.
pub open spec fn antagonist_wanted(java: JavaModel, state: State) -> Option<SpawnRequest> {
    if state == State::CORRUPT_B && java.entity is None {
        Some(
            SpawnRequest {
                texture: JAVA_TEXTURE,
                i: java.body.i,
                j: java.body.j,
                scale: java.body.scale,
                flip_x: true,
                colour: java.colour,
            },
        )
    } else {
        None
    }
}

/// The new look of the antagonist's sprite, told whenever its colour is
/// stepped.
pub open spec fn antagonist_shown(java: JavaModel, state: State) -> Option<SpriteUpdate> {
    match state {
        State::CORRUPT_B | State::JAVA => match java.entity {
            Some(entity) => Some(
                SpriteUpdate { entity, flip_x: false, colour: java.colour.solidified() },
            ),
            None => None,
        },
        _ => None,
    }
}

/// Everything one tick of the display does, given the glyphs it would
/// scramble to.
pub open spec fn score_updated(
    texter: Texter,
    jump_count: u64,
    java: JavaModel,
    score: ScoreModel,
    background: Colour,
    now: u64,
    glyphs: Seq<u8>,
    texter_after: Texter,
    java_after: JavaModel,
    score_after: ScoreModel,
    background_after: Colour,
    frame: ScoreFrame,
) -> bool {
    &&& texter_after == texter_turned(texter, score, now)
    &&& java_after == JavaModel { colour: tint_next(java, texter.state), ..java }
    &&& score_after == score_next(score, texter, jump_count, java.entity is Some, now, glyphs)
    &&& background_after == background_next(background, texter.state)
    &&& frame.spawn == antagonist_wanted(java, texter.state)
    &&& frame.sprite == antagonist_shown(java, texter.state)
}

/// Turns a rotation further by `rate` degrees.
pub fn turn(rotation: u16, rate: u16) -> (after: u16)
    ensures
        after == turned(rotation, rate),
        after < FULL_TURN,
{
    ((rotation as u32 + rate as u32) % (FULL_TURN as u32)) as u16
}

/// Tells whether a rotation is near the starting orientation.
pub fn is_near_origin(rotation: u16) -> (near: bool)
    ensures
        near == near_origin(rotation),
{
    rotation <= NEAR || (rotation <= FULL_TURN && FULL_TURN - rotation <= NEAR) || rotation
        > FULL_TURN
}

/// Tells whether the corruption breaks out on this tick.
pub fn is_breaking_out(score: &Score, texter: &Texter, now: u64) -> (out: bool)
    ensures
        out == breaks_out(score@, *texter, now),
{
    texter.state == State::CORRUPT_A && is_near_origin(turn(score.rotation, SLOW_TURN)) && elapsed(
        now,
        texter.time_save,
    ) >= CORRUPT_DWELL_MS
}

/// One tick of the display, with the glyphs to scramble to handed in.
///
/// The stage first paints the display, the background and the
/// antagonist's sprite; then the display turns; then, in the first stage
/// of corruption, it is decided whether the corruption breaks out.
pub fn score_update_with(
    now: u64,
    score: &mut Score,
    texter: &mut Texter,
    player: &Player,
    java: &mut Java,
    background: &mut Colour,
    glyphs: Vec<u8>,
) -> (frame: ScoreFrame)
    ensures
        old(texter).state.may_follow(final(texter).state),
        score_updated(
            *old(texter),
            player.jump_count,
            old(java)@,
            old(score)@,
            *old(background),
            now,
            glyphs@,
            *final(texter),
            final(java)@,
            final(score)@,
            *final(background),
            frame,
        ),
{
    let out: bool = is_breaking_out(score, texter, now);
    let mut frame = ScoreFrame { spawn: None, sprite: None };
    let mut rate: u16 = FAST_TURN;
    match texter.state {
        State::DEFAULT => {
            score.text = to_decimal(player.jump_count);
            score.colour = Colour::rgb(FULL, FULL, FULL);
        },
        State::NICE => {
            score.text = celebrate();
            score.colour = Colour::rgb(0, FULL, FULL);
        },
        State::CORRUPT_A => {
            *background = background.darken();
            score.text = to_decimal(player.jump_count);
            score.colour = Colour::rgb(FULL, FULL, FULL);
            rate = SLOW_TURN;
        },
        State::CORRUPT_B => {
            rate = 0;
            *background = background.darken();
            score.colour = score.colour.fade();
            match java.entity {
                None => {
                    score.rotation = 0;
                    frame.spawn = Some(
                        SpawnRequest {
                            texture: JAVA_TEXTURE,
                            i: java.body.i,
                            j: java.body.j,
                            scale: java.body.scale,
                            flip_x: true,
                            colour: java.colour,
                        },
                    );
                },
                Some(entity) => {
                    java.colour = java.colour.solidify();
                    frame.sprite = Some(SpriteUpdate { entity, flip_x: false, colour: java.colour });
                },
            }
        },
        State::JAVA => {
            match java.entity {
                None => {},
                Some(entity) => {
                    java.colour = java.colour.solidify();
                    frame.sprite = Some(SpriteUpdate { entity, flip_x: false, colour: java.colour });
                },
            }
        },
    }
    score.rotation = turn(score.rotation, rate);
    if out {
        texter.state = State::CORRUPT_B;
        score.text = glyphs;
        score.colour = Colour::rgba(0, FULL, 0, score.colour.a);
    }
    frame
}

/// One tick of the display. When the corruption breaks out the display
/// scrambles to freshly drawn glyphs.
pub fn score_update(
    now: u64,
    score: &mut Score,
    texter: &mut Texter,
    player: &Player,
    java: &mut Java,
    background: &mut Colour,
) -> (frame: ScoreFrame)
    ensures
        old(texter).state.may_follow(final(texter).state),
        exists|glyphs: Seq<u8>|
            is_scramble(glyphs) && #[trigger] score_updated(
                *old(texter),
                player.jump_count,
                old(java)@,
                old(score)@,
                *old(background),
                now,
                glyphs,
                *final(texter),
                final(java)@,
                final(score)@,
                *final(background),
                frame,
            ),
{
    if is_breaking_out(score, texter, now) {
        let mut rng = rand::thread_rng();
        let glyphs: Vec<u8> = scramble(&mut rng);
        score_update_with(now, score, texter, player, java, background, glyphs)
    } else {
        let frame = score_update_with(now, score, texter, player, java, background, Vec::new());
        proof {
            let unused = Seq::new(SCRAMBLE_LEN as nat, |k: int| GLYPH_FIRST);
            assert(is_scramble(unused));
            assert(score_updated(
                *old(texter),
                player.jump_count,
                old(java)@,
                old(score)@,
                *old(background),
                now,
                unused,
                *texter,
                java@,
                score@,
                *background,
                frame,
            ));
        }
        frame
    }
}

/// Everything one tick of the scramble clock does, given the glyphs it
/// would scramble to: in the last two stages the text is replaced; in
/// the second stage of corruption, once the text has faded from sight,
/// the last stage begins and the antagonist's launches are timed from
/// now.
pub open spec fn score_corrupted(
    java: JavaModel,
    texter: Texter,
    now: u64,
    score: ScoreModel,
    glyphs: Seq<u8>,
    java_after: JavaModel,
    texter_after: Texter,
    score_after: ScoreModel,
) -> bool {
    &&& score_after == if churns(texter.state) {
        ScoreModel { text: glyphs, ..score }
    } else {
        score
    }
    &&& texter_after == if completes(texter, score) {
        Texter { state: State::JAVA, ..texter }
    } else {
        texter
    }
    &&& java_after == if completes(texter, score) {
        JavaModel { time_save: now, ..java }
    } else {
        java
    }
}

/// The stages in which the text is scrambled.
pub open spec fn churns(state: State) -> bool {
    state == State::CORRUPT_B || state == State::JAVA
}

/// Whether the corruption completes on this tick of the scramble clock.
pub open spec fn completes(texter: Texter, score: ScoreModel) -> bool {
    texter.state == State::CORRUPT_B && score.colour.invisible()
}

/// One tick of the scramble clock, with the glyphs to scramble to handed
/// in.
pub fn score_corrupt_with(
    java: &mut Java,
    texter: &mut Texter,
    now: u64,
    score: &mut Score,
    glyphs: Vec<u8>,
)
    ensures
        old(texter).state.may_follow(final(texter).state),
        score_corrupted(
            old(java)@,
            *old(texter),
            now,
            old(score)@,
            glyphs@,
            final(java)@,
            *final(texter),
            final(score)@,
        ),
{
    match texter.state {
        State::CORRUPT_B => {
            score.text = glyphs;
            if score.colour.is_invisible() {
                java.time_save = now;
                texter.state = State::JAVA;
            }
        },
        State::JAVA => {
            score.text = glyphs;
        },
        _ => {},
    }
}

/// One tick of the scramble clock. The glyphs are freshly drawn.
pub fn score_corrupt(java: &mut Java, texter: &mut Texter, now: u64, score: &mut Score)
    ensures
        old(texter).state.may_follow(final(texter).state),
        exists|glyphs: Seq<u8>|
            is_scramble(glyphs) && #[trigger] score_corrupted(
                old(java)@,
                *old(texter),
                now,
                old(score)@,
                glyphs,
                final(java)@,
                *final(texter),
                final(score)@,
            ),
{
    match texter.state {
        State::CORRUPT_B | State::JAVA => {
            let mut rng = rand::thread_rng();
            let glyphs: Vec<u8> = scramble(&mut rng);
            score_corrupt_with(java, texter, now, score, glyphs);
        },
        _ => {
            proof {
                let unused = Seq::new(SCRAMBLE_LEN as nat, |k: int| GLYPH_FIRST);
                assert(is_scramble(unused));
                assert(score_corrupted(
                    old(java)@,
                    *old(texter),
                    now,
                    old(score)@,
                    unused,
                    java@,
                    *texter,
                    score@,
                ));
            }
        },
    }
}

/// The display takes only steps that `may_follow` allows.
pub proof fn lemma_display_follows(texter: Texter, score: ScoreModel, now: u64)
    ensures
        texter.state.may_follow(texter_turned(texter, score, now).state),
        completes(texter, score) ==> texter.state.may_follow(State::JAVA),
{
}

/// From the first stage of corruption the second is reached on exactly
/// those ticks on which both hold: the first stage has lasted
/// `CORRUPT_DWELL_MS`, and the display has come back near its starting
/// orientation. On any other tick the first stage lasts.
pub proof fn lemma_breakout_needs_both(texter: Texter, score: ScoreModel, now: u64)
    requires
        texter.state == State::CORRUPT_A,
    ensures
        texter_turned(texter, score, now).state == if elapsed(now, texter.time_save)
            >= CORRUPT_DWELL_MS && near_origin(turned(score.rotation, SLOW_TURN)) {
            State::CORRUPT_B
        } else {
            State::CORRUPT_A
        },
        texter_turned(texter, score, now).time_save == texter.time_save,
{
}

/// In the second stage of corruption every tick of the display leaves
/// the text with `FADE_PERCENT` of its alpha, which is strictly less for
/// as long as any alpha is left, and the stage itself lasts.
pub proof fn lemma_text_fades(
    texter: Texter,
    score: ScoreModel,
    jump_count: u64,
    bound: bool,
    now: u64,
    glyphs: Seq<u8>,
)
    requires
        texter.state == State::CORRUPT_B,
    ensures
        score_next(score, texter, jump_count, bound, now, glyphs).colour.a == attenuated(
            score.colour.a,
            FADE_PERCENT,
        ),
        score.colour.a > 0 ==> score_next(score, texter, jump_count, bound, now, glyphs).colour.a
            < score.colour.a,
        texter_turned(texter, score, now) == texter,
{
    if score.colour.a > 0 {
        lemma_attenuated_decreases(score.colour.a, FADE_PERCENT);
    }
}

/// The last stage is entered from the second stage of corruption, on
/// exactly those ticks of the scramble clock that find the text's alpha
/// at or below `INVISIBLE`.
pub proof fn lemma_completes_when_faded(
    java: JavaModel,
    texter: Texter,
    now: u64,
    score: ScoreModel,
    glyphs: Seq<u8>,
    java_after: JavaModel,
    texter_after: Texter,
    score_after: ScoreModel,
)
    requires
        score_corrupted(java, texter, now, score, glyphs, java_after, texter_after, score_after),
        texter.state == State::CORRUPT_B,
    ensures
        texter_after.state == State::JAVA <==> score.colour.a <= INVISIBLE,
        texter_after.state == State::JAVA || texter_after.state == State::CORRUPT_B,
        texter_after.state == State::JAVA ==> java_after.time_save == now,
{
}

} // verus!
