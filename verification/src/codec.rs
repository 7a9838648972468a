//! State codec: the fixed little-endian binary layout of the persisted
//! counter, and the verified conversions to and from it.

use vstd::prelude::*;

use crate::Counter;
use crate::CounterError;

verus! {

/// The four little-endian bytes of a counter value, least significant first.
pub open spec fn encoded(count: u32) -> Seq<u8> {
    seq![
        (count & 0xff) as u8,
        ((count >> 8) & 0xff) as u8,
        ((count >> 16) & 0xff) as u8,
        ((count >> 24) & 0xff) as u8,
    ]
}

/// The value assembled from four bytes taken as little-endian.
pub open spec fn word_of(b0: u8, b1: u8, b2: u8, b3: u8) -> u32 {
    (b0 as u32) | ((b1 as u32) << 8) | ((b2 as u32) << 16) | ((b3 as u32) << 24)
}

/// The counter value held in the first four bytes of a buffer.
pub open spec fn decoded(s: Seq<u8>) -> u32
    recommends
        s.len() >= 4,
{
    word_of(s[0], s[1], s[2], s[3])
}

/// Round-trip law: decoding the bytes that encode a counter value yields
/// that value back, for every representable counter.
pub proof fn lemma_counter_round_trip(c: Counter)
    ensures
        decoded(encoded(c.count)) == c.count,
{
    let n = c.count;
    assert(word_of(
        (n & 0xff) as u8,
        ((n >> 8) & 0xff) as u8,
        ((n >> 16) & 0xff) as u8,
        ((n >> 24) & 0xff) as u8,
    ) == n) by (bit_vector);
}

/// Interprets the first four bytes of the buffer as a little-endian
/// unsigned 32-bit counter; a shorter buffer is rejected. Trailing bytes
/// are out of the layout and ignored.
pub fn decode_counter(bytes: &[u8]) -> (r: Result<Counter, CounterError>)
    ensures
        bytes@.len() >= 4 ==> r == Ok::<Counter, CounterError>(Counter { count: decoded(bytes@) }),
        bytes@.len() < 4 ==> r == Err::<Counter, CounterError>(CounterError::DecodeError),
{
    if bytes.len() < 4 {
        return Err(CounterError::DecodeError);
    }
    let count = (bytes[0] as u32) | ((bytes[1] as u32) << 8) | ((bytes[2] as u32) << 16)
        | ((bytes[3] as u32) << 24);
    Ok(Counter { count })
}

/// Writes the counter's four little-endian bytes over the front of the
/// buffer, leaving every byte past the encoding width untouched. A buffer
/// too small to hold the encoding is rejected before any byte is written.
pub fn encode_counter(c: &Counter, buf: &mut Vec<u8>) -> (r: Result<(), CounterError>)
    ensures
        old(buf)@.len() >= 4 ==> r == Ok::<(), CounterError>(())
            && final(buf)@ == encoded(c.count) + old(buf)@.skip(4),
        old(buf)@.len() < 4 ==> r == Err::<(), CounterError>(CounterError::DecodeError)
            && final(buf)@ == old(buf)@,
{
    if buf.len() < 4 {
        return Err(CounterError::DecodeError);
    }
    let count = c.count;
    buf[0] = (count & 0xff) as u8;
    buf[1] = ((count >> 8) & 0xff) as u8;
    buf[2] = ((count >> 16) & 0xff) as u8;
    buf[3] = ((count >> 24) & 0xff) as u8;
    proof {
        assert(buf@ =~= encoded(c.count) + old(buf)@.skip(4));
    }
    Ok(())
}

} // verus!
