//! The randomly colored light-bulb image: a random color is drawn and
//! rendered as a lowercase `#rrggbb` hex literal, which the serving layer
//! substitutes into its SVG template.

use vstd::prelude::*;

use crate::types::Color;

verus! {

/// Draws one uniformly random byte.
///
/// Relies on `rand::random`: the result is random, so nothing is promised
/// of its value.
#[verifier::external_body]
fn random_byte() -> u8 {
    rand::random()
}

/// A color with three independently random channels.
pub fn random_color() -> Color {
    Color { red: random_byte(), green: random_byte(), blue: random_byte() }
}

/// The lowercase hex digit of a value below 16.
pub open spec fn hex_digit(n: u8) -> u8
    recommends
        n < 16,
{
    if n < 10 {
        (0x30 + n) as u8
    } else {
        (0x57 + n) as u8
    }
}

/// The ASCII bytes of a color as a CSS hex literal: `#` followed by two
/// lowercase hex digits per channel.
pub open spec fn hex_color_bytes(c: Color) -> Seq<u8> {
    seq![
        0x23u8,
        hex_digit(c.red / 16),
        hex_digit(c.red % 16),
        hex_digit(c.green / 16),
        hex_digit(c.green % 16),
        hex_digit(c.blue / 16),
        hex_digit(c.blue % 16),
    ]
}

/// Renders one hex digit.
fn hex_digit_exec(n: u8) -> (d: u8)
    requires
        n < 16,
    ensures
        d == hex_digit(n),
{
    if n < 10 {
        0x30 + n
    } else {
        0x57 + n
    }
}

/// Renders a color as the seven ASCII bytes of its CSS hex literal,
/// exactly as [`hex_color_bytes`] says.
pub fn hex_color(c: Color) -> (r: Vec<u8>)
    ensures
        r@ == hex_color_bytes(c),
{
    let mut out: Vec<u8> = Vec::new();
    out.push(0x23);
    out.push(hex_digit_exec(c.red / 16));
    out.push(hex_digit_exec(c.red % 16));
    out.push(hex_digit_exec(c.green / 16));
    out.push(hex_digit_exec(c.green % 16));
    out.push(hex_digit_exec(c.blue / 16));
    out.push(hex_digit_exec(c.blue % 16));
    proof {
        assert(out@ =~= hex_color_bytes(c));
    }
    out
}

} // verus!
