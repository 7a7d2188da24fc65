//! Colours with fixed-point channels: `FULL` is full intensity, or, for
//! alpha, fully opaque.

use vstd::prelude::*;

verus! {

/// Full intensity of a channel.
pub const FULL: u32 = 1_000_000;

/// Percentage of its colour channels a darkening leaves.
pub const DARKEN_PERCENT: u32 = 99;

/// Percentage of its alpha a fading leaves.
pub const FADE_PERCENT: u32 = 98;

/// Alpha gained by one step of solidifying.
pub const SOLIDIFY_STEP: u32 = 1_000;

/// Alpha at or below which a colour counts as invisible.
pub const INVISIBLE: u32 = 1_000;

/// `percent` hundredths of `channel`, rounded down.
pub open spec fn attenuated(channel: u32, percent: u32) -> u32 {
    (channel * percent / 100) as u32
}

/// Computes `percent` hundredths of `channel`, rounded down.
pub fn attenuate(channel: u32, percent: u32) -> (less: u32)
    requires
        percent <= 100,
    ensures
        less == attenuated(channel, percent),
        less <= channel,
{
    assert(channel * percent <= 100 * 0xffff_ffff) by (nonlinear_arith)
        requires
            channel <= 0xffff_ffff,
            percent <= 100,
    ;
    let wide: u64 = channel as u64 * percent as u64;
    assert(wide / 100 <= channel) by (nonlinear_arith)
        requires
            wide == channel * percent,
            percent <= 100,
    ;
    (wide / 100) as u32
}

/// An attenuation by less than a hundred percent strictly lowers every
/// channel but zero.
pub proof fn lemma_attenuated_decreases(channel: u32, percent: u32)
    requires
        percent < 100,
        channel > 0,
    ensures
        attenuated(channel, percent) < channel,
{
    assert(channel * percent / 100 < channel) by (nonlinear_arith)
        requires
            percent < 100,
            channel > 0,
    ;
}

/// A colour: red, green, blue and alpha.
#[derive(Clone, Copy, Debug, PartialEq, Eq, Structural)]
pub struct Colour {
    pub r: u32,
    pub g: u32,
    pub b: u32,
    pub a: u32,
}

impl Colour {
    /// The opaque colour with the given channels.
    pub open spec fn opaque(r: u32, g: u32, b: u32) -> Colour {
        Colour { r, g, b, a: FULL }
    }

    /// Opaque white.
    pub open spec fn white() -> Colour {
        Colour::opaque(FULL, FULL, FULL)
    }

    /// Opaque cyan.
    pub open spec fn cyan() -> Colour {
        Colour::opaque(0, FULL, FULL)
    }

    /// Opaque green.
    pub open spec fn green() -> Colour {
        Colour::opaque(0, FULL, 0)
    }

    /// Whether the colour's alpha has decayed away.
    pub open spec fn invisible(self) -> bool {
        self.a <= INVISIBLE
    }

    /// The colour one step darker: opaque, with each colour channel at
    /// `DARKEN_PERCENT` of what it was.
    pub open spec fn darkened(self) -> Colour {
        Colour::opaque(
            attenuated(self.r, DARKEN_PERCENT),
            attenuated(self.g, DARKEN_PERCENT),
            attenuated(self.b, DARKEN_PERCENT),
        )
    }

    /// The colour one step more transparent: alpha at `FADE_PERCENT` of
    /// what it was.
    pub open spec fn faded(self) -> Colour {
        Colour { a: attenuated(self.a, FADE_PERCENT), ..self }
    }

    /// The colour one step more opaque: alpha raised by `SOLIDIFY_STEP`,
    /// but not beyond `FULL`.
    pub open spec fn solidified(self) -> Colour {
        Colour {
            a: if self.a >= FULL {
                self.a
            } else if self.a + SOLIDIFY_STEP >= FULL {
                FULL
            } else {
                (self.a + SOLIDIFY_STEP) as u32
            },
            ..self
        }
    }

    /// The same hue with another alpha.
    pub open spec fn with_alpha(self, a: u32) -> Colour {
        Colour { a, ..self }
    }

    /// Makes an opaque colour.
    pub fn rgb(r: u32, g: u32, b: u32) -> (colour: Colour)
        ensures
            colour == Colour::opaque(r, g, b),
    {
        Colour { r, g, b, a: FULL }
    }

    /// Makes a colour.
    pub fn rgba(r: u32, g: u32, b: u32, a: u32) -> (colour: Colour)
        ensures
            colour == (Colour { r, g, b, a }),
    {
        Colour { r, g, b, a }
    }

    /// Tells whether the colour's alpha has decayed away.
    pub fn is_invisible(&self) -> (gone: bool)
        ensures
            gone == self.invisible(),
    {
        self.a <= INVISIBLE
    }

    /// Darkens the colour by one step.
    pub fn darken(&self) -> (darker: Colour)
        ensures
            darker == self.darkened(),
    {
        Colour::rgb(
            attenuate(self.r, DARKEN_PERCENT),
            attenuate(self.g, DARKEN_PERCENT),
            attenuate(self.b, DARKEN_PERCENT),
        )
    }

    /// Fades the colour by one step.
    pub fn fade(&self) -> (fainter: Colour)
        ensures
            fainter == self.faded(),
    {
        Colour::rgba(self.r, self.g, self.b, attenuate(self.a, FADE_PERCENT))
    }

    /// Makes the colour more opaque by one step.
    pub fn solidify(&self) -> (clearer: Colour)
        ensures
            clearer == self.solidified(),
    {
        let a: u32 = if self.a >= FULL {
            self.a
        } else if self.a + SOLIDIFY_STEP >= FULL {
            FULL
        } else {
            self.a + SOLIDIFY_STEP
        };
        Colour::rgba(self.r, self.g, self.b, a)
    }
}

} // verus!
