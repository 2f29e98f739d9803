//! Maps an intensity to a display character.

use crate::mode::CharacterSet;
use vstd::prelude::*;
use vstd::string::StrSliceExecFns;

verus! {

/// The character of a cell that holds no ink.
pub const BLANK: char = ' ';

/// The character of a filled cell under [`CharacterSet::Blocks`].
pub const FILLED: char = '#';

/// Intensities strictly above this value count as filled under
/// [`CharacterSet::Blocks`].
pub const BLOCK_THRESHOLD: u8 = 128;

/// The number of entries of the density ramp.
pub const RAMP_LEN: usize = 70;

/// The density ramp: seventy characters from visually lightest to darkest.
pub open spec fn ramp_chars() -> Seq<char> {
    " .'`^\",:;Il!i><~+_-?][}{1)(|\\/tfjrxnuvczXYUJCLQ0OZmwqpdbkhao*#MW&8%B@$"@
}

/// The position in a ramp of `ramp_len` entries that stands for `intensity`:
/// `floor(intensity * (ramp_len - 1) / 255)`.
pub open spec fn ramp_index(intensity: u8, ramp_len: nat) -> nat
    recommends
        ramp_len > 0,
{
    ((intensity as nat) * ((ramp_len - 1) as nat)) / 255
}

/// The character that stands for `intensity` under `charset`.
pub open spec fn char_for(intensity: u8, charset: CharacterSet) -> char {
    match charset {
        CharacterSet::Blocks => if intensity > BLOCK_THRESHOLD {
            FILLED
        } else {
            BLANK
        },
        CharacterSet::Density => ramp_chars()[ramp_index(intensity, RAMP_LEN as nat) as int],
    }
}

/// The ramp has seventy entries, begins with a blank and ends with its
/// darkest character.
pub proof fn lemma_ramp_shape()
    ensures
        ramp_chars().len() == RAMP_LEN,
        ramp_chars()[0] == BLANK,
        ramp_chars()[RAMP_LEN - 1] == '$',
{
    reveal_strlit(" .'`^\",:;Il!i><~+_-?][}{1)(|\\/tfjrxnuvczXYUJCLQ0OZmwqpdbkhao*#MW&8%B@$");
}

/// A ramp index always lies inside the ramp.
pub proof fn lemma_ramp_index_in_range(intensity: u8, ramp_len: nat)
    requires
        ramp_len > 0,
    ensures
        ramp_index(intensity, ramp_len) < ramp_len,
        ramp_index(0, ramp_len) == 0,
        ramp_index(255, ramp_len) == ramp_len - 1,
{
    let k: int = ramp_len - 1;
    assert((intensity as int) * k <= 255 * k) by (nonlinear_arith)
        requires
            0 <= intensity as int <= 255,
            k >= 0,
    ;
    vstd::arithmetic::div_mod::lemma_div_is_ordered((intensity as int) * k, 255 * k, 255);
    vstd::arithmetic::div_mod::lemma_div_multiples_vanish(k, 255);
}

/// The ramp index never decreases as the intensity grows: a brighter sample
/// is never drawn with a lighter character than a dimmer one.
pub proof fn lemma_ramp_index_monotonic(i1: u8, i2: u8, ramp_len: nat)
    requires
        i1 < i2,
        ramp_len > 0,
    ensures
        ramp_index(i1, ramp_len) <= ramp_index(i2, ramp_len),
{
    let k: int = ramp_len - 1;
    assert((i1 as int) * k <= (i2 as int) * k) by (nonlinear_arith)
        requires
            0 <= i1 as int,
            (i1 as int) < (i2 as int),
            k >= 0,
    ;
    vstd::arithmetic::div_mod::lemma_div_is_ordered((i1 as int) * k, (i2 as int) * k, 255);
}

/// The threshold never turns a brighter sample blank where a dimmer one is
/// filled.
pub proof fn lemma_blocks_monotonic(i1: u8, i2: u8)
    requires
        i1 < i2,
    ensures
        char_for(i1, CharacterSet::Blocks) == FILLED ==> char_for(i2, CharacterSet::Blocks)
            == FILLED,
{
}

/// Under either policy intensity 0 is drawn blank, the lightest output, and
/// intensity 255 with the darkest character of the policy: under the density
/// ramp these are the ramp's first and last entries.
pub proof fn lemma_extremes(charset: CharacterSet)
    ensures
        char_for(0, charset) == BLANK,
        char_for(0, CharacterSet::Density) == ramp_chars()[0],
        char_for(255, CharacterSet::Blocks) == FILLED,
        char_for(255, CharacterSet::Density) == ramp_chars()[RAMP_LEN - 1],
        char_for(255, CharacterSet::Density) == '$',
{
    lemma_ramp_shape();
    lemma_ramp_index_in_range(0, RAMP_LEN as nat);
    lemma_ramp_index_in_range(255, RAMP_LEN as nat);
}

/// Picks the character for `intensity` under `charset`.
pub fn map_intensity(intensity: u8, charset: CharacterSet) -> (ch: char)
    ensures
        ch == char_for(intensity, charset),
{
    match charset {
        CharacterSet::Blocks => {
            if intensity > BLOCK_THRESHOLD {
                FILLED
            } else {
                BLANK
            }
        },
        CharacterSet::Density => {
            let ramp = " .'`^\",:;Il!i><~+_-?][}{1)(|\\/tfjrxnuvczXYUJCLQ0OZmwqpdbkhao*#MW&8%B@$";
            proof {
                lemma_ramp_shape();
                lemma_ramp_index_in_range(intensity, RAMP_LEN as nat);
            }
            let index: usize = (intensity as usize) * (RAMP_LEN - 1) / 255;
            ramp.get_char(index)
        },
    }
}

} // verus!
