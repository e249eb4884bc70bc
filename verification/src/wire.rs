//! Byte-level encoding shared by every payload: one byte per `u8`, `bool` and plain
//! enum, two bytes, low byte first, per `u16`.

use vstd::prelude::*;

verus! {

/// The two bytes of `value`, low byte first.
pub open spec fn u16_wire(value: u16) -> Seq<u8> {
    seq![(value % 256) as u8, (value / 256) as u8]
}

/// The number that two bytes stand for, low byte first.
pub open spec fn u16_of(low: u8, high: u8) -> u16 {
    (low + 256 * high) as u16
}

/// The byte of a flag.
pub open spec fn bool_wire(flag: bool) -> u8 {
    if flag { 1 } else { 0 }
}

/// The flag that a byte stands for: only 0 and 1 are flags.
pub open spec fn bool_of(byte: u8) -> Option<bool> {
    if byte == 0 {
        Some(false)
    } else if byte == 1 {
        Some(true)
    } else {
        None
    }
}

/// Decoding undoes encoding, and encoding undoes decoding.
pub proof fn u16_round_trip(value: u16, low: u8, high: u8)
    ensures
        u16_of(u16_wire(value)[0], u16_wire(value)[1]) == value,
        u16_wire(u16_of(low, high)) == seq![low, high],
{
    assert(u16_wire(u16_of(low, high)) =~= seq![low, high]);
}

/// Appends the two bytes of `value` to `out`.
pub fn put_u16(out: &mut Vec<u8>, value: u16)
    ensures
        final(out)@ == old(out)@ + u16_wire(value),
{
    out.push((value % 256) as u8);
    out.push((value / 256) as u8);
    assert(out@ =~= old(out)@ + u16_wire(value));
}

/// Reads the `u16` whose two bytes start at `at`.
pub fn get_u16(bytes: &[u8], at: usize) -> (value: u16)
    requires
        at + 2 <= bytes@.len(),
    ensures
        value == u16_of(bytes@[at as int], bytes@[at + 1]),
{
    let low: u16 = bytes[at] as u16;
    let high: u16 = bytes[at + 1] as u16;
    low + 256 * high
}

} // verus!
