//! The binary wire codec.
//!
//! Inbound command frames are 5 bytes, `[id_hi, id_lo, red, green, blue]`
//! with a big-endian 16-bit id; anything shorter is deliberately ignored
//! rather than treated as an error. Outbound snapshot frames concatenate one
//! chunk per LED in id order: 3 bytes `[r, g, b]` in colors-only mode, or
//! 11 bytes `[r, g, b]` followed by the big-endian 64-bit last-update
//! timestamp in full mode.

use vstd::prelude::*;

use crate::repo::Led;
use crate::types::Color;

verus! {

/// A decoded inbound command: write `color` to the LED at `id`.
#[derive(Clone, Copy, Debug, PartialEq, Eq, Structural)]
pub struct SetCommand {
    pub id: usize,
    pub color: Color,
}

/// What decoding an inbound binary frame yields: the first five bytes as a
/// write command, or nothing at all when the frame is shorter than five
/// bytes.
pub open spec fn decode_spec(bytes: Seq<u8>) -> Option<SetCommand> {
    if bytes.len() >= 5 {
        Some(
            SetCommand {
                id: ((bytes[0] as int) * 256 + (bytes[1] as int)) as usize,
                color: Color { red: bytes[2], green: bytes[3], blue: bytes[4] },
            },
        )
    } else {
        None
    }
}

/// Decodes one inbound binary frame, exactly as [`decode_spec`] says.
pub fn decode_command(bytes: &Vec<u8>) -> (r: Option<SetCommand>)
    ensures
        r == decode_spec(bytes@),
{
    if bytes.len() >= 5 {
        let id: usize = (bytes[0] as usize) * 256 + (bytes[1] as usize);
        Some(SetCommand { id, color: Color { red: bytes[2], green: bytes[3], blue: bytes[4] } })
    } else {
        None
    }
}

/// The eight bytes of a timestamp, most significant first (big-endian
/// two's complement).
pub open spec fn be_bytes_of_i64(t: i64) -> Seq<u8> {
    seq![
        ((t >> 56) & 0xff) as u8,
        ((t >> 48) & 0xff) as u8,
        ((t >> 40) & 0xff) as u8,
        ((t >> 32) & 0xff) as u8,
        ((t >> 24) & 0xff) as u8,
        ((t >> 16) & 0xff) as u8,
        ((t >> 8) & 0xff) as u8,
        (t & 0xff) as u8,
    ]
}

/// The three bytes of a color.
pub open spec fn color_bytes(c: Color) -> Seq<u8> {
    seq![c.red, c.green, c.blue]
}

/// The chunk one LED contributes to an outbound frame: 3 bytes in
/// colors-only mode, 11 bytes in full mode.
pub open spec fn led_bytes(l: Led, colors_only: bool) -> Seq<u8> {
    if colors_only {
        color_bytes(l.color)
    } else {
        color_bytes(l.color) + be_bytes_of_i64(l.last_updated)
    }
}

/// A whole outbound snapshot frame: the chunks of all LEDs, concatenated in
/// id order.
pub open spec fn encode_leds(leds: Seq<Led>, colors_only: bool) -> Seq<u8>
    decreases leds.len(),
{
    if leds.len() == 0 {
        Seq::empty()
    } else {
        encode_leds(leds.drop_last(), colors_only) + led_bytes(leds.last(), colors_only)
    }
}

/// An outbound frame is exactly 3 bytes per LED in colors-only mode and
/// 11 bytes per LED in full mode.
pub proof fn lemma_encode_len(leds: Seq<Led>, colors_only: bool)
    ensures
        colors_only ==> encode_leds(leds, colors_only).len() == leds.len() * 3,
        !colors_only ==> encode_leds(leds, colors_only).len() == leds.len() * 11,
    decreases leds.len(),
{
    if leds.len() > 0 {
        lemma_encode_len(leds.drop_last(), colors_only);
    }
}

/// The full-mode chunk of a single LED is exactly its three color bytes
/// followed by the big-endian bytes of its last-update timestamp.
pub proof fn lemma_full_frame_of_one_led(l: Led)
    ensures
        encode_leds(seq![l], false) == color_bytes(l.color) + be_bytes_of_i64(l.last_updated),
{
    assert(seq![l].drop_last() =~= Seq::<Led>::empty());
    assert(encode_leds(Seq::<Led>::empty(), false) == Seq::<u8>::empty());
    assert(seq![l].last() == l);
    assert(encode_leds(seq![l], false) =~= color_bytes(l.color) + be_bytes_of_i64(l.last_updated));
}

/// Appends the big-endian bytes of `t` to `out`.
fn push_be_bytes_i64(out: &mut Vec<u8>, t: i64)
    ensures
        final(out)@ == old(out)@ + be_bytes_of_i64(t),
{
    proof {
        assert(0 <= ((t >> 56) & 0xff) < 256) by (bit_vector);
        assert(0 <= ((t >> 48) & 0xff) < 256) by (bit_vector);
        assert(0 <= ((t >> 40) & 0xff) < 256) by (bit_vector);
        assert(0 <= ((t >> 32) & 0xff) < 256) by (bit_vector);
        assert(0 <= ((t >> 24) & 0xff) < 256) by (bit_vector);
        assert(0 <= ((t >> 16) & 0xff) < 256) by (bit_vector);
        assert(0 <= ((t >> 8) & 0xff) < 256) by (bit_vector);
        assert(0 <= (t & 0xff) < 256) by (bit_vector);
    }
    out.push(((t >> 56) & 0xff) as u8);
    out.push(((t >> 48) & 0xff) as u8);
    out.push(((t >> 40) & 0xff) as u8);
    out.push(((t >> 32) & 0xff) as u8);
    out.push(((t >> 24) & 0xff) as u8);
    out.push(((t >> 16) & 0xff) as u8);
    out.push(((t >> 8) & 0xff) as u8);
    out.push((t & 0xff) as u8);
    proof {
        assert(final(out)@ =~= old(out)@ + be_bytes_of_i64(t));
    }
}

/// Encodes a snapshot's cells as one outbound binary frame, exactly as
/// [`encode_leds`] says.
pub fn encode_snapshot(leds: &Vec<Led>, colors_only: bool) -> (r: Vec<u8>)
    ensures
        r@ == encode_leds(leds@, colors_only),
{
    let mut out: Vec<u8> = Vec::new();
    let mut i: usize = 0;
    while i < leds.len()
        invariant
            i <= leds@.len(),
            out@ == encode_leds(leds@.take(i as int), colors_only),
        decreases leds@.len() - i,
    {
        let ghost prefix = leds@.take(i as int);
        let led = leds[i];
        out.push(led.color.red);
        out.push(led.color.green);
        out.push(led.color.blue);
        if !colors_only {
            push_be_bytes_i64(&mut out, led.last_updated);
        }
        proof {
            assert(leds@.take(i + 1int).drop_last() =~= prefix);
            assert(leds@.take(i + 1int).last() == led);
            assert(out@ =~= encode_leds(leds@.take(i + 1int), colors_only));
        }
        i = i + 1;
    }
    proof {
        assert(leds@.take(leds@.len() as int) =~= leds@);
    }
    out
}

} // verus!
