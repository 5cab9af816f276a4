//! The serial console variant of the intake: it echoes what it reads with
//! the lower-case ASCII letters turned to upper case.

use vstd::prelude::*;

verus! {

/// `byte` with a lower-case ASCII letter turned to upper case, and any other
/// byte as it is.
pub open spec fn upper(byte: u8) -> u8 {
    if 0x61 <= byte <= 0x7a {
        (byte - 0x20) as u8
    } else {
        byte
    }
}

/// Turns a lower-case ASCII letter to upper case by clearing bit 5.
pub fn to_upper(byte: u8) -> (out: u8)
    ensures
        out == upper(byte),
{
    if 0x61 <= byte && byte <= 0x7a {
        assert(byte & !0x20u8 == byte - 0x20u8) by (bit_vector)
            requires
                0x61u8 <= byte <= 0x7au8,
        ;
        byte & !0x20u8
    } else {
        byte
    }
}

/// The bytes to echo for the bytes that were read: the same bytes in the same
/// order, each lower-case ASCII letter in upper case.
pub fn to_upper_all(bytes: &[u8]) -> (out: Vec<u8>)
    ensures
        out@.len() == bytes@.len(),
        forall|i: int| 0 <= i < bytes@.len() ==> out@[i] == upper(#[trigger] bytes@[i]),
{
    let mut out: Vec<u8> = Vec::new();
    let mut i: usize = 0;
    while i < bytes.len()
        invariant
            i <= bytes@.len(),
            out@.len() == i,
            forall|k: int| 0 <= k < i ==> out@[k] == upper(#[trigger] bytes@[k]),
        decreases bytes@.len() - i,
    {
        out.push(to_upper(bytes[i]));
        i += 1;
    }
    out
}

} // verus!
