//! What the score display can read: a count in decimal, a fixed
//! celebration, or a scramble of random glyphs. Text is ASCII, one byte
//! per character.

use crate::chance::draw;
use vstd::prelude::*;

verus! {

/// First of the printable glyphs a scramble draws from.
pub const GLYPH_FIRST: u8 = 33;

/// Last of them.
pub const GLYPH_LAST: u8 = 126;

/// Number of glyphs in a scramble.
pub const SCRAMBLE_LEN: usize = 5;

/// The ASCII character of the digit `d`.
pub open spec fn digit(d: nat) -> u8 {
    (48 + d) as u8
}

/// `n` written in decimal, most significant digit first.
pub open spec fn decimal(n: nat) -> Seq<u8>
    decreases n,
{
    if n < 10 {
        seq![digit(n)]
    } else {
        decimal(n / 10).push(digit(n % 10))
    }
}

/// The number a string of digits denotes.
pub open spec fn number(text: Seq<u8>) -> nat
    decreases text.len(),
{
    if text.len() == 0 {
        0
    } else {
        number(text.drop_last()) * 10 + (text.last() - 48) as nat
    }
}

/// The bytes of a string of ASCII characters.
pub open spec fn ascii(s: Seq<char>) -> Seq<u8> {
    Seq::new(s.len(), |k: int| s[k] as u8)
}

/// The text shown while the count is celebrated.
pub open spec fn celebration() -> Seq<u8> {
    ascii("haha funny number"@)
}

/// The glyphs a scramble draws from, in order.
pub open spec fn glyphs() -> Seq<u8> {
    Seq::new((GLYPH_LAST - GLYPH_FIRST + 1) as nat, |k: int| (GLYPH_FIRST + k) as u8)
}

/// A scramble is `SCRAMBLE_LEN` glyphs.
pub open spec fn is_scramble(text: Seq<u8>) -> bool {
    &&& text.len() == SCRAMBLE_LEN
    &&& forall|k: int| 0 <= k < text.len() ==> GLYPH_FIRST <= #[trigger] text[k] <= GLYPH_LAST
}

/// The decimal form of a number consists of digits only, starts with a
/// zero only for zero itself, and denotes that number.
pub proof fn lemma_decimal_denotes(n: nat)
    ensures
        decimal(n).len() >= 1,
        forall|k: int| 0 <= k < decimal(n).len() ==> 48 <= #[trigger] decimal(n)[k] <= 57,
        n > 0 ==> decimal(n)[0] != 48,
        number(decimal(n)) == n,
    decreases n,
{
    if n < 10 {
        assert(decimal(n).drop_last() =~= Seq::<u8>::empty());
        assert(number(decimal(n).drop_last()) == 0);
    } else {
        lemma_decimal_denotes(n / 10);
        assert(decimal(n).drop_last() =~= decimal(n / 10));
    }
}

/// Writes `n` in decimal.
pub fn to_decimal(n: u64) -> (text: Vec<u8>)
    ensures
        text@ == decimal(n as nat),
    decreases n,
{
    if n < 10 {
        let mut text: Vec<u8> = Vec::new();
        text.push(48u8 + n as u8);
        assert(text@ =~= decimal(n as nat));
        text
    } else {
        let mut text: Vec<u8> = to_decimal(n / 10);
        text.push(48u8 + (n % 10) as u8);
        text
    }
}

/// The celebration text.
pub fn celebrate() -> (text: Vec<u8>)
    ensures
        text@ == celebration(),
{
    let text: Vec<u8> = vec![
        104u8, 97u8, 104u8, 97u8, 32u8, 102u8, 117u8, 110u8, 110u8, 121u8, 32u8, 110u8, 117u8,
        109u8, 98u8, 101u8, 114u8,
    ];
    proof {
        reveal_strlit("haha funny number");
        assert(text@ =~= celebration());
    }
    text
}

/// The pool of glyphs, in order.
pub fn glyph_pool() -> (pool: Vec<u8>)
    ensures
        pool@ == glyphs(),
{
    let mut pool: Vec<u8> = Vec::new();
    let mut glyph: u8 = GLYPH_FIRST;
    while glyph <= GLYPH_LAST
        invariant
            GLYPH_FIRST <= glyph <= GLYPH_LAST + 1,
            pool@.len() == glyph - GLYPH_FIRST,
            forall|k: int| 0 <= k < pool@.len() ==> pool@[k] == GLYPH_FIRST + k,
        decreases GLYPH_LAST + 1 - glyph,
    {
        pool.push(glyph);
        glyph += 1;
    }
    assert(pool@ =~= glyphs());
    pool
}

/// Draws a scramble: each glyph independently and from the whole pool.
pub fn scramble(rng: &mut rand::rngs::ThreadRng) -> (text: Vec<u8>)
    ensures
        is_scramble(text@),
{
    let pool: Vec<u8> = glyph_pool();
    let mut text: Vec<u8> = Vec::new();
    while text.len() < SCRAMBLE_LEN
        invariant
            pool@ == glyphs(),
            text@.len() <= SCRAMBLE_LEN,
            forall|k: int| 0 <= k < text@.len() ==> GLYPH_FIRST <= #[trigger] text@[k] <= GLYPH_LAST,
        decreases SCRAMBLE_LEN - text@.len(),
    {
        let glyph: u8 = draw(&pool, rng).unwrap();
        text.push(glyph);
    }
    text
}

} // verus!
