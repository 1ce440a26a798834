//! Fill styles: an RGB triple written out as the style string that the
//! drawing context understands.

use crate::text::{decimal, decimal_string};
use vstd::prelude::*;
use vstd::string::*;

verus! {

/// The least value that a colour channel of a generated shape takes.
pub const CHANNEL_MIN: u8 = 100;

/// The greatest value that a colour channel of a generated shape takes.
pub const CHANNEL_MAX: u8 = 255;

/// The style string of the colour with channels `r`, `g` and `b`:
/// `rgb(` and the three numerals, separated by a comma and a space, then `)`.
pub open spec fn rgb_text(r: nat, g: nat, b: nat) -> Seq<char> {
    seq!['r', 'g', 'b', '('] + decimal(r) + seq![',', ' '] + decimal(g) + seq![',', ' ']
        + decimal(b) + seq![')']
}

/// Whether `text` is the style string of a colour whose three channels all
/// lie between `CHANNEL_MIN` and `CHANNEL_MAX`.
pub open spec fn is_generated_color(text: Seq<char>) -> bool {
    exists|r: nat, g: nat, b: nat|
        CHANNEL_MIN <= r <= CHANNEL_MAX && CHANNEL_MIN <= g <= CHANNEL_MAX && CHANNEL_MIN <= b
            <= CHANNEL_MAX && text == #[trigger] rgb_text(r, g, b)
}

/// Writes the style string of the colour with channels `r`, `g` and `b`.
pub fn rgb_string(r: u8, g: u8, b: u8) -> (s: String)
    ensures
        s@ == rgb_text(r as nat, g as nat, b as nat),
{
    proof {
        reveal_strlit("rgb(");
        reveal_strlit(", ");
        reveal_strlit(")");
    }
    let mut s = String::from_str("rgb(");
    let red = decimal_string(r as u64);
    s.append(red.as_str());
    s.append(", ");
    let green = decimal_string(g as u64);
    s.append(green.as_str());
    s.append(", ");
    let blue = decimal_string(b as u64);
    s.append(blue.as_str());
    s.append(")");
    assert(s@ =~= rgb_text(r as nat, g as nat, b as nat));
    s
}

/// Draws one value between `low` and `high`, both included, from the
/// thread's random number generator, through `rand::Rng::gen_range` on
/// `rand::thread_rng()`. The contract claims only that the value lies in the
/// range asked for; which value comes is left open.
#[verifier::external_body]
fn sample_inclusive(low: u8, high: u8) -> (v: u8)
    requires
        low <= high,
    ensures
        low <= v <= high,
{
    rand::Rng::gen_range(&mut rand::thread_rng(), low..=high)
}

/// Draws one colour channel of a generated shape.
pub fn sample_channel() -> (c: u8)
    ensures
        CHANNEL_MIN <= c <= CHANNEL_MAX,
{
    sample_inclusive(CHANNEL_MIN, CHANNEL_MAX)
}

} // verus!
