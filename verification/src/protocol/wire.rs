//! Integers on the wire: network byte order, through the `byteorder` crate.

use byteorder::{ByteOrder, NetworkEndian, WriteBytesExt};
use vstd::prelude::*;

verus! {

/// The number that the first four bytes of `bytes` spell in network byte
/// order, most significant byte first.
pub open spec fn be_u32(bytes: Seq<u8>) -> int
    recommends
        bytes.len() >= 4,
{
    bytes[0] as int * 0x100_0000 + bytes[1] as int * 0x1_0000 + bytes[2] as int * 0x100
        + bytes[3] as int
}

/// The four bytes that spell `n` in network byte order.
pub open spec fn be_bytes(n: u32) -> Seq<u8> {
    seq![
        (n as int / 0x100_0000) as u8,
        (n as int / 0x1_0000 % 0x100) as u8,
        (n as int / 0x100 % 0x100) as u8,
        (n as int % 0x100) as u8,
    ]
}

/// `byteorder::NetworkEndian::read_u32`: reads the first four bytes of `buf`
/// as a big-endian number. The crate panics on a shorter slice, which the
/// precondition rules out.
#[verifier::external_body]
pub(crate) fn read_u32_be(buf: &[u8]) -> (n: u32)
    requires
        buf@.len() >= 4,
    ensures
        n as int == be_u32(buf@),
{
    NetworkEndian::read_u32(buf)
}

/// `byteorder::WriteBytesExt::write_u32` in network byte order on a `Vec`:
/// appends the four big-endian bytes of `n`. Writing to a `Vec` cannot fail.
#[verifier::external_body]
pub(crate) fn write_u32_be(out: &mut Vec<u8>, n: u32)
    ensures
        final(out)@ == old(out)@ + be_bytes(n),
{
    out.write_u32::<NetworkEndian>(n).unwrap()
}

/// `byteorder::WriteBytesExt::write_u8` on a `Vec`: appends the byte `n`.
/// Writing to a `Vec` cannot fail.
#[verifier::external_body]
pub(crate) fn write_u8(out: &mut Vec<u8>, n: u8)
    ensures
        final(out)@ == old(out)@.push(n),
{
    out.write_u8(n).unwrap()
}

/// A length prefix reads back as the number that was written, whatever
/// follows it.
pub proof fn law_length_prefix_round_trip(n: u32, rest: Seq<u8>)
    ensures
        be_bytes(n).len() == 4,
        be_u32(be_bytes(n) + rest) == n,
{
}

/// Two different numbers never share a length prefix.
pub proof fn law_length_prefix_is_unique(a: u32, b: u32)
    requires
        be_bytes(a) == be_bytes(b),
    ensures
        a == b,
{
    law_length_prefix_round_trip(a, Seq::empty());
    law_length_prefix_round_trip(b, Seq::empty());
}

} // verus!
