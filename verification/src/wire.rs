//! The wire format of a command: three 16-bit fields, each most significant
//! byte first, in the order sequence number, left setpoint, right setpoint.

use byteorder::{BigEndian, ByteOrder};
use vstd::prelude::*;

verus! {

/// Number of bytes in one command datagram.
pub const DATAGRAM_LEN: usize = 6;

/// The two bytes of a 16-bit value, most significant first.
pub open spec fn be_u16(value: u16) -> Seq<u8> {
    seq![(value / 256) as u8, (value % 256) as u8]
}

/// The 16-bit value that two bytes spell, most significant first.
pub open spec fn u16_of_be(high: u8, low: u8) -> u16 {
    (high * 256 + low) as u16
}

/// The bytes of the datagram that carries `(frame, left, right)`.
pub open spec fn datagram_bytes(frame: u16, left: u16, right: u16) -> Seq<u8> {
    be_u16(frame) + be_u16(left) + be_u16(right)
}

/// The datagram that carries `(frame, left, right)`, as the array that is
/// handed to a transport.
pub open spec fn datagram_of(frame: u16, left: u16, right: u16) -> [u8; 6] {
    [
        be_u16(frame)[0],
        be_u16(frame)[1],
        be_u16(left)[0],
        be_u16(left)[1],
        be_u16(right)[0],
        be_u16(right)[1],
    ]
}

/// The `(frame, left, right)` that a receiver reads out of six bytes.
pub open spec fn decode_datagram(bytes: Seq<u8>) -> (u16, u16, u16)
    recommends
        bytes.len() == DATAGRAM_LEN,
{
    (u16_of_be(bytes[0], bytes[1]), u16_of_be(bytes[2], bytes[3]), u16_of_be(bytes[4], bytes[5]))
}

/// `byteorder::BigEndian::write_u16`, the `ByteOrder` method, applied to a
/// buffer of two zero bytes, which is then handed back. Trusted: the buffer
/// comes back holding the big-endian bytes of `value`, the high byte first.
#[verifier::external_body]
fn big_endian_bytes(value: u16) -> (bytes: [u8; 2])
    ensures
        bytes@ == be_u16(value),
{
    let mut bytes = [0u8; 2];
    BigEndian::write_u16(&mut bytes, value);
    bytes
}

/// Serializes `(frame, left, right)` into the six bytes of a datagram.
pub fn encode_datagram(frame: u16, left: u16, right: u16) -> (datagram: [u8; 6])
    ensures
        datagram == datagram_of(frame, left, right),
        datagram@ == datagram_bytes(frame, left, right),
        decode_datagram(datagram@) == (frame, left, right),
{
    let f = big_endian_bytes(frame);
    let l = big_endian_bytes(left);
    let r = big_endian_bytes(right);
    let datagram = [f[0], f[1], l[0], l[1], r[0], r[1]];
    proof {
        lemma_datagram_view(frame, left, right);
    }
    datagram
}

/// The array `datagram_of` holds exactly the bytes `datagram_bytes`.
pub proof fn lemma_datagram_view(frame: u16, left: u16, right: u16)
    ensures
        datagram_of(frame, left, right)@ == datagram_bytes(frame, left, right),
{
    assert(datagram_of(frame, left, right)@ =~= datagram_bytes(frame, left, right));
}

/// Decoding an encoded datagram gives back exactly the three fields that
/// went in.
pub proof fn lemma_decode_encode(frame: u16, left: u16, right: u16)
    ensures
        datagram_of(frame, left, right)@.len() == DATAGRAM_LEN,
        decode_datagram(datagram_of(frame, left, right)@) == (frame, left, right),
        decode_datagram(datagram_bytes(frame, left, right)) == (frame, left, right),
{
    lemma_datagram_view(frame, left, right);
}

/// Two datagrams that carry the same setpoints agree on every byte after
/// the sequence field, and they agree on the sequence field only if they
/// carry the same sequence number.
pub proof fn lemma_same_setpoints_differ_in_sequence_only(
    first: u16,
    second: u16,
    left: u16,
    right: u16,
)
    ensures
        datagram_bytes(first, left, right).subrange(2, 6) == datagram_bytes(
            second,
            left,
            right,
        ).subrange(2, 6),
        datagram_bytes(first, left, right).subrange(0, 2) == datagram_bytes(
            second,
            left,
            right,
        ).subrange(0, 2) <==> first == second,
{
    let a = datagram_bytes(first, left, right);
    let b = datagram_bytes(second, left, right);
    assert(a.subrange(2, 6) =~= b.subrange(2, 6));
    assert(a.subrange(0, 2) =~= be_u16(first));
    assert(b.subrange(0, 2) =~= be_u16(second));
}

} // verus!
