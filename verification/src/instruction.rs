//! Instruction decoder: turns the caller-supplied byte buffer into a tagged
//! operation. The wire format is a one-byte tag (`0` = increment, `1` =
//! decrement) followed by a four-byte little-endian unsigned amount; bytes
//! past that layout are ignored.

use vstd::prelude::*;

use crate::CounterError;
use crate::codec::decoded;

verus! {

/// An ephemeral, per-invocation operation on the counter.
#[derive(Clone, Copy, Debug, PartialEq, Eq, Structural)]
pub enum Instruction {
    Increment(u32),
    Decrement(u32),
}

/// What a byte buffer parses to: the tagged operation, or nothing when the
/// buffer is shorter than the tag-plus-amount layout or its tag is not one
/// of the two recognized values.
pub open spec fn parsed_instruction(s: Seq<u8>) -> Option<Instruction> {
    if s.len() < 5 {
        None
    } else if s[0] == 0 {
        Some(Instruction::Increment(decoded(s.skip(1))))
    } else if s[0] == 1 {
        Some(Instruction::Decrement(decoded(s.skip(1))))
    } else {
        None
    }
}

/// The decoder's outcome for a given parse: an unparsable buffer is a
/// decode failure, never anything else.
pub open spec fn instruction_result(p: Option<Instruction>) -> Result<Instruction, CounterError> {
    match p {
        Some(instruction) => Ok(instruction),
        None => Err(CounterError::DecodeError),
    }
}

/// Decodes a tag byte and a little-endian amount from the buffer.
pub fn decode_instruction(bytes: &[u8]) -> (r: Result<Instruction, CounterError>)
    ensures
        r == instruction_result(parsed_instruction(bytes@)),
{
    if bytes.len() < 5 {
        return Err(CounterError::DecodeError);
    }
    let tag = bytes[0];
    if tag > 1 {
        return Err(CounterError::DecodeError);
    }
    let amount = (bytes[1] as u32) | ((bytes[2] as u32) << 8) | ((bytes[3] as u32) << 16)
        | ((bytes[4] as u32) << 24);
    proof {
        assert(bytes@.skip(1)[0] == bytes@[1]);
        assert(bytes@.skip(1)[1] == bytes@[2]);
        assert(bytes@.skip(1)[2] == bytes@[3]);
        assert(bytes@.skip(1)[3] == bytes@[4]);
    }
    if tag == 0 {
        Ok(Instruction::Increment(amount))
    } else {
        Ok(Instruction::Decrement(amount))
    }
}

} // verus!
