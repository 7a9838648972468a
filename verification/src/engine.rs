//! Execution engine: ownership validation and the single public operation,
//! `process`, which runs one invocation end to end — validate the
//! controller, decode the stored counter, decode the instruction, apply a
//! saturating update, and re-encode in place. An early failure leaves the
//! account byte-for-byte unchanged.

use vstd::prelude::*;

use crate::Counter;
use crate::CounterError;
use crate::codec::decode_counter;
use crate::codec::decoded;
use crate::codec::encode_counter;
use crate::codec::encoded;
use crate::instruction::Instruction;
use crate::instruction::decode_instruction;
use crate::instruction::parsed_instruction;

verus! {

/// The external holder of the persisted counter: a controller identity and
/// the byte buffer whose first four bytes carry the encoded counter.
pub struct Account {
    pub controller: Vec<u8>,
    pub data: Vec<u8>,
}

/// The counter after one operation, with saturating arithmetic: adding
/// clamps at `u32::MAX`, subtracting clamps at `0`; no overflow, no error.
pub open spec fn apply_spec(count: u32, instruction: Instruction) -> u32 {
    match instruction {
        Instruction::Increment(amount) => if count + amount > u32::MAX {
            u32::MAX
        } else {
            (count + amount) as u32
        },
        Instruction::Decrement(amount) => if count < amount {
            0u32
        } else {
            (count - amount) as u32
        },
    }
}

/// Applies one decoded instruction to a counter value.
pub fn apply(c: Counter, instruction: Instruction) -> (r: Counter)
    ensures
        r.count == apply_spec(c.count, instruction),
{
    match instruction {
        Instruction::Increment(amount) => Counter { count: c.count.saturating_add(amount) },
        Instruction::Decrement(amount) => Counter { count: c.count.saturating_sub(amount) },
    }
}

/// Saturation upper bound: incrementing a counter that stands at the
/// maximum by any positive amount leaves it at the maximum.
pub proof fn lemma_saturation_upper(amount: u32)
    requires
        amount > 0,
    ensures
        apply_spec(u32::MAX, Instruction::Increment(amount)) == u32::MAX,
{
}

/// Saturation lower bound: decrementing a counter that stands at zero by
/// any positive amount leaves it at zero.
pub proof fn lemma_saturation_lower(amount: u32)
    requires
        amount > 0,
    ensures
        apply_spec(0u32, Instruction::Decrement(amount)) == 0u32,
{
}

/// Byte-for-byte comparison of two buffers.
pub fn bytes_equal(a: &[u8], b: &[u8]) -> (r: bool)
    ensures
        r == (a@ == b@),
{
    if a.len() != b.len() {
        return false;
    }
    let mut i: usize = 0;
    while i < a.len()
        invariant
            0 <= i <= a@.len(),
            a@.len() == b@.len(),
            forall|j: int| 0 <= j < i ==> a@[j] == b@[j],
        decreases a@.len() - i,
    {
        if a[i] != b[i] {
            return false;
        }
        i += 1;
    }
    proof {
        assert(a@ =~= b@);
    }
    true
}

/// Confirms that the account's declared controller identity is the
/// expected one; anything else is an authorization failure. No mutation.
pub fn validate_controller(expected: &[u8], actual: &[u8]) -> (r: Result<(), CounterError>)
    ensures
        actual@ == expected@ ==> r == Ok::<(), CounterError>(()),
        actual@ != expected@ ==> r == Err::<(), CounterError>(CounterError::AuthorizationError),
{
    if bytes_equal(expected, actual) {
        Ok(())
    } else {
        Err(CounterError::AuthorizationError)
    }
}

/// One whole invocation as a mathematical function of its inputs: the
/// result, and the account buffer as it stands afterwards. A mismatched
/// controller is rejected before any byte of the buffer is interpreted; a
/// buffer too short for the counter layout, or an unparsable instruction,
/// is rejected before any byte is written; on success the first four bytes
/// hold the updated counter and the rest of the buffer is untouched.
pub open spec fn process_spec(
    expected: Seq<u8>,
    controller: Seq<u8>,
    data: Seq<u8>,
    instruction_data: Seq<u8>,
) -> (Result<(), CounterError>, Seq<u8>) {
    if controller != expected {
        (Err(CounterError::AuthorizationError), data)
    } else if data.len() < 4 {
        (Err(CounterError::DecodeError), data)
    } else {
        match parsed_instruction(instruction_data) {
            None => (Err(CounterError::DecodeError), data),
            Some(instruction) => (
                Ok(()),
                encoded(apply_spec(decoded(data), instruction)) + data.skip(4),
            ),
        }
    }
}

/// Runs one invocation against the account in place.
pub fn process(
    expected_controller: &[u8],
    account: &mut Account,
    instruction_data: &[u8],
) -> (r: Result<(), CounterError>)
    ensures
        final(account).controller == old(account).controller,
        (r, final(account).data@) == process_spec(
            expected_controller@,
            old(account).controller@,
            old(account).data@,
            instruction_data@,
        ),
        r is Err ==> final(account).data@ == old(account).data@,
        old(account).controller@ != expected_controller@ ==> r == Err::<(), CounterError>(
            CounterError::AuthorizationError,
        ),
{
    if let Err(e) = validate_controller(expected_controller, account.controller.as_slice()) {
        return Err(e);
    }
    let counter = match decode_counter(account.data.as_slice()) {
        Ok(c) => c,
        Err(e) => {
            return Err(e);
        },
    };
    let instruction = match decode_instruction(instruction_data) {
        Ok(i) => i,
        Err(e) => {
            return Err(e);
        },
    };
    let updated = apply(counter, instruction);
    match encode_counter(&updated, &mut account.data) {
        Ok(u) => Ok(u),
        Err(e) => Err(e),
    }
}

/// Authorization gate: under a controller identity different from the
/// expected one, the outcome is an authorization failure and the buffer
/// stands unchanged, whatever the buffer and instruction bytes hold.
pub proof fn lemma_authorization_gate(
    expected: Seq<u8>,
    controller: Seq<u8>,
    data: Seq<u8>,
    instruction_data: Seq<u8>,
)
    requires
        controller != expected,
    ensures
        process_spec(expected, controller, data, instruction_data) == (
            Err::<(), CounterError>(CounterError::AuthorizationError),
            data,
        ),
{
}

/// Decode rejection: an instruction buffer with an unrecognized tag, or
/// with fewer bytes than the tag-plus-amount layout, yields a decode
/// failure and leaves the buffer unchanged.
pub proof fn lemma_decode_rejection(
    expected: Seq<u8>,
    controller: Seq<u8>,
    data: Seq<u8>,
    instruction_data: Seq<u8>,
)
    requires
        controller == expected,
        data.len() >= 4,
        instruction_data.len() < 5 || (instruction_data[0] != 0 && instruction_data[0] != 1),
    ensures
        process_spec(expected, controller, data, instruction_data) == (
            Err::<(), CounterError>(CounterError::DecodeError),
            data,
        ),
{
}

} // verus!
