//! Fixed-width integers as they travel in a frame: least significant byte
//! first, whatever the machine.

use vstd::prelude::*;

verus! {

/// The two wire bytes of `value`.
pub open spec fn u16_bytes(value: u16) -> Seq<u8> {
    seq![(value % 256) as u8, (value / 256) as u8]
}

/// The value that two wire bytes stand for.
pub open spec fn u16_value(bytes: Seq<u8>) -> u16
    recommends
        bytes.len() == 2,
{
    (bytes[0] + 256 * bytes[1]) as u16
}

/// The four wire bytes of `value`.
pub open spec fn u32_bytes(value: u32) -> Seq<u8> {
    seq![
        (value % 256) as u8,
        (value / 256 % 256) as u8,
        (value / 65536 % 256) as u8,
        (value / 16777216) as u8,
    ]
}

/// The value that four wire bytes stand for.
pub open spec fn u32_value(bytes: Seq<u8>) -> u32
    recommends
        bytes.len() == 4,
{
    (bytes[0] + 256 * bytes[1] + 65536 * bytes[2] + 16777216 * bytes[3]) as u32
}

/// Reading back what was written gives the value again.
pub proof fn lemma_u16_round_trip(value: u16)
    ensures
        u16_bytes(value).len() == 2,
        u16_value(u16_bytes(value)) == value,
{
}

/// Writing what was read gives the bytes again.
pub proof fn lemma_u16_bytes_round_trip(bytes: Seq<u8>)
    requires
        bytes.len() == 2,
    ensures
        u16_bytes(u16_value(bytes)) == bytes,
{
    assert(u16_bytes(u16_value(bytes)) =~= bytes);
}

/// Reading back what was written gives the value again.
pub proof fn lemma_u32_round_trip(value: u32)
    ensures
        u32_bytes(value).len() == 4,
        u32_value(u32_bytes(value)) == value,
{
}

/// Writing what was read gives the bytes again.
pub proof fn lemma_u32_bytes_round_trip(bytes: Seq<u8>)
    requires
        bytes.len() == 4,
    ensures
        u32_bytes(u32_value(bytes)) == bytes,
{
    let b0 = bytes[0] as int;
    let b1 = bytes[1] as int;
    let b2 = bytes[2] as int;
    let b3 = bytes[3] as int;
    let value = b0 + 256 * b1 + 65536 * b2 + 16777216 * b3;
    assert(u32_value(bytes) == value);
    assert(value % 256 == b0);
    assert(value / 256 == b1 + 256 * b2 + 65536 * b3);
    assert(value / 256 % 256 == b1);
    assert(value / 65536 == b2 + 256 * b3);
    assert(value / 65536 % 256 == b2);
    assert(value / 16777216 == b3);
    let back = u32_bytes(u32_value(bytes));
    assert(back[0] == bytes[0]);
    assert(back[1] == bytes[1]);
    assert(back[2] == bytes[2]);
    assert(back[3] == bytes[3]);
    assert(back =~= bytes);
}

/// `data` with the bytes from `at` on replaced by `bytes`.
pub open spec fn overwrite(data: Seq<u8>, at: int, bytes: Seq<u8>) -> Seq<u8>
    recommends
        0 <= at,
        at + bytes.len() <= data.len(),
{
    Seq::new(
        data.len(),
        |i: int|
            if at <= i < at + bytes.len() {
                bytes[i - at]
            } else {
                data[i]
            },
    )
}

/// Stores `value` in the two bytes of `data` that start at `at`.
pub fn put_u16(data: &mut [u8; 32], at: usize, value: u16)
    requires
        at + 2 <= 32,
    ensures
        final(data)@ == overwrite(old(data)@, at as int, u16_bytes(value)),
{
    data[at] = (value % 256) as u8;
    data[at + 1] = (value / 256) as u8;
    assert(data@ =~= overwrite(old(data)@, at as int, u16_bytes(value)));
}

/// Stores `value` in the four bytes of `data` that start at `at`.
pub fn put_u32(data: &mut [u8; 32], at: usize, value: u32)
    requires
        at + 4 <= 32,
    ensures
        final(data)@ == overwrite(old(data)@, at as int, u32_bytes(value)),
{
    data[at] = (value % 256) as u8;
    data[at + 1] = (value / 256 % 256) as u8;
    data[at + 2] = (value / 65536 % 256) as u8;
    data[at + 3] = (value / 16777216) as u8;
    assert(data@ =~= overwrite(old(data)@, at as int, u32_bytes(value)));
}

/// The value held in the two bytes of `data` that start at `at`.
pub fn get_u16(data: &[u8], at: usize) -> (value: u16)
    requires
        at + 2 <= data@.len(),
    ensures
        value == u16_value(data@.subrange(at as int, at + 2)),
{
    let low: u16 = data[at] as u16;
    let high: u16 = data[at + 1] as u16;
    low + 256 * high
}

/// The value held in the four bytes of `data` that start at `at`.
pub fn get_u32(data: &[u8], at: usize) -> (value: u32)
    requires
        at + 4 <= data@.len(),
    ensures
        value == u32_value(data@.subrange(at as int, at + 4)),
{
    let b0: u32 = data[at] as u32;
    let b1: u32 = data[at + 1] as u32;
    let b2: u32 = data[at + 2] as u32;
    let b3: u32 = data[at + 3] as u32;
    b0 + 256 * b1 + 65536 * b2 + 16777216 * b3
}

} // verus!
