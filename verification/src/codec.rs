//! How a counter's value is laid out in a tier: four bytes, most significant first.

use vstd::prelude::*;

verus! {

/// The four bytes of `value`, most significant first.
pub open spec fn spec_encode(value: u32) -> Seq<u8> {
    seq![
        (value / 0x100_0000) as u8,
        (value / 0x1_0000 % 0x100) as u8,
        (value / 0x100 % 0x100) as u8,
        (value % 0x100) as u8,
    ]
}

/// The number that four bytes stand for, most significant first.
pub open spec fn spec_value(bytes: Seq<u8>) -> int {
    bytes[0] * 0x100_0000 + bytes[1] * 0x1_0000 + bytes[2] * 0x100 + bytes[3]
}

/// The counter that `bytes` hold: their value if they are exactly four, nothing otherwise.
pub open spec fn spec_decode(bytes: Seq<u8>) -> Option<u32> {
    if bytes.len() == 4 {
        Some(spec_value(bytes) as u32)
    } else {
        None
    }
}

/// What a counter reads as, given what its path produced: absent and malformed both read as 0.
pub open spec fn spec_reading(found: Option<Seq<u8>>) -> u32 {
    match found {
        Some(bytes) => match spec_decode(bytes) {
            Some(value) => value,
            None => 0,
        },
        None => 0,
    }
}

/// The value after `value`; the largest value has none.
pub open spec fn spec_successor(value: u32) -> Option<u32> {
    if value < u32::MAX {
        Some((value + 1) as u32)
    } else {
        None
    }
}

/// Whether `a` sorts strictly before `b` byte by byte, for two layouts of four bytes.
pub open spec fn sorts_before(a: Seq<u8>, b: Seq<u8>) -> bool {
    exists|i: int|
        0 <= i < 4 && #[trigger] a[i] < b[i] && forall|j: int| 0 <= j < i ==> a[j] == b[j]
}

/// Lays `value` out as four bytes, most significant first.
pub fn encode(value: u32) -> (bytes: Vec<u8>)
    ensures
        bytes@ == spec_encode(value),
{
    let mut bytes: Vec<u8> = Vec::new();
    bytes.push((value / 0x100_0000) as u8);
    bytes.push((value / 0x1_0000 % 0x100) as u8);
    bytes.push((value / 0x100 % 0x100) as u8);
    bytes.push((value % 0x100) as u8);
    assert(bytes@ =~= spec_encode(value));
    bytes
}

/// Reads a counter from its layout; `None` unless `bytes` are exactly four.
pub fn decode(bytes: &[u8]) -> (value: Option<u32>)
    ensures
        value == spec_decode(bytes@),
{
    if bytes.len() != 4 {
        return None;
    }
    let b0: u32 = bytes[0] as u32;
    let b1: u32 = bytes[1] as u32;
    let b2: u32 = bytes[2] as u32;
    let b3: u32 = bytes[3] as u32;
    Some(b0 * 0x100_0000 + b1 * 0x1_0000 + b2 * 0x100 + b3)
}

/// Reads a counter from what its path produced; absent and malformed both read as 0.
pub fn reading(found: Option<&Vec<u8>>) -> (value: u32)
    ensures
        value == spec_reading(
            match found {
                Some(bytes) => Some(bytes@),
                None => None,
            },
        ),
{
    match found {
        Some(bytes) => match decode(bytes.as_slice()) {
            Some(value) => value,
            None => 0,
        },
        None => 0,
    }
}

/// The value after `value`; `None` for the largest value, which has none.
pub fn successor(value: u32) -> (next: Option<u32>)
    ensures
        next == spec_successor(value),
{
    if value < u32::MAX {
        Some(value + 1)
    } else {
        None
    }
}

/// Decoding undoes encoding.
pub proof fn law_decode_inverts_encode(value: u32)
    ensures
        spec_decode(spec_encode(value)) == Some(value),
{
}

/// Encoding undoes decoding: four bytes are the layout of the value they stand for.
pub proof fn law_encode_inverts_decode(bytes: Seq<u8>)
    requires
        bytes.len() == 4,
    ensures
        spec_decode(bytes) is Some,
        spec_encode(spec_decode(bytes)->0) =~= bytes,
{
    let b0 = bytes[0] as int;
    let b1 = bytes[1] as int;
    let b2 = bytes[2] as int;
    let b3 = bytes[3] as int;
    let v = spec_value(bytes);
    assert(v == (b0 * 0x1_0000 + b1 * 0x100 + b2) * 0x100 + b3);
    assert(v / 0x100 == b0 * 0x1_0000 + b1 * 0x100 + b2);
    assert(v % 0x100 == b3);
    assert(v / 0x100 == (b0 * 0x100 + b1) * 0x100 + b2);
    assert(v / 0x1_0000 == b0 * 0x100 + b1);
    assert(v / 0x100 % 0x100 == b2);
    assert(v / 0x100_0000 == b0);
    assert(v / 0x1_0000 % 0x100 == b1);
}

/// Byte order is numeric order: one value is smaller than another exactly if its layout sorts
/// before the other's.
pub proof fn law_layout_keeps_order(a: u32, b: u32)
    ensures
        a < b <==> sorts_before(spec_encode(a), spec_encode(b)),
{
    let x = spec_encode(a);
    let y = spec_encode(b);
    law_decode_inverts_encode(a);
    law_decode_inverts_encode(b);
    if a < b {
        if x[0] < y[0] {
            assert(0 <= 0 < 4 && x[0] < y[0]);
        } else if x[1] < y[1] {
            assert(0 <= 1 < 4 && x[1] < y[1]);
        } else if x[2] < y[2] {
            assert(0 <= 2 < 4 && x[2] < y[2]);
        } else {
            assert(0 <= 3 < 4 && x[3] < y[3]);
        }
    }
    if sorts_before(x, y) {
        let i = choose|i: int|
            0 <= i < 4 && #[trigger] x[i] < y[i] && forall|j: int| 0 <= j < i ==> x[j] == y[j];
        assert(a < b);
    }
}

} // verus!
