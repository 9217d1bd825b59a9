//! Rarity-tiered collectible card issuance.
//!
//! The crate decides what gets issued and to whom, exactly once: it derives
//! program-exclusive storage addresses, deduplicates ownership records,
//! keeps per-subject issuance tallies, and picks a rarity tier from the
//! discovery flags and the scarcity caps. The transactional host that
//! funds accounts and commits writes sits outside; it hands the library
//! plain values and executes the plans the library returns.

use vstd::prelude::*;
use vstd::bytes::lemma_auto_spec_u64_to_from_le_bytes;
use vstd::bytes::spec_u64_from_le_bytes;
use vstd::bytes::spec_u64_to_le_bytes;
use vstd::bytes::u64_from_le_bytes;
use vstd::bytes::u64_to_le_bytes;

pub mod args;
pub mod codec;
pub mod derive;
pub mod engine;
pub mod error;
pub mod instruction;
pub mod ledger;
pub mod mint;
pub mod processor;

verus! {

/// The running tally of the stand-alone counter program: a single
/// monotonically increasing value.
#[derive(Clone, Copy, Debug, PartialEq, Eq, Structural)]
pub struct CounterAccount {
    pub count: u64,
}

impl CounterAccount {
    /// A counter starts at the value the initializer chose.
    pub fn initialize(initial_value: u64) -> (c: CounterAccount)
        ensures
            c.count == initial_value,
    {
        CounterAccount { count: initial_value }
    }

    /// Adds one to the tally; an increment at the top of the range is
    /// refused rather than wrapped.
    pub fn increment(&mut self) -> (r: Result<(), crate::error::CardError>)
        ensures
            old(self).count < u64::MAX ==> r is Ok && final(self).count == old(self).count + 1,
            old(self).count == u64::MAX ==> r == Err::<(), crate::error::CardError>(
                crate::error::CardError::CounterOverflow,
            ) && *final(self) == *old(self),
    {
        match self.count.checked_add(1) {
            Some(next) => {
                self.count = next;
                Ok(())
            },
            None => Err(crate::error::CardError::CounterOverflow),
        }
    }
}

/// Serializes a counter account: its tally, little-endian, in the 8 bytes
/// the allocation holds.
pub fn encode_counter_account(c: &CounterAccount) -> (v: Vec<u8>)
    ensures
        v@ == spec_u64_to_le_bytes(c.count),
        v@.len() == 8,
{
    u64_to_le_bytes(c.count)
}

/// Deserializes a counter account; fails with `CorruptState` on an
/// allocation of any other size.
pub fn decode_counter_account(bytes: &Vec<u8>) -> (r: Result<
    CounterAccount,
    crate::error::CardError,
>)
    ensures
        match r {
            Ok(c) => bytes@.len() == 8 && c.count == spec_u64_from_le_bytes(bytes@),
            Err(e) => e == crate::error::CardError::CorruptState && bytes@.len() != 8,
        },
{
    if bytes.len() != 8 {
        return Err(crate::error::CardError::CorruptState);
    }
    Ok(CounterAccount { count: u64_from_le_bytes(bytes.as_slice()) })
}

/// A counter account round trip is the identity.
pub proof fn lemma_counter_account_round_trip(x: u64)
    ensures
        spec_u64_from_le_bytes(spec_u64_to_le_bytes(x)) == x,
{
    lemma_auto_spec_u64_to_from_le_bytes();
}

/// The counter program's two commands.
#[derive(Clone, Copy, Debug, PartialEq, Eq, Structural)]
pub enum CounterInstruction {
    InitializeCounter { initial_value: u64 },
    IncrementCounter,
}

/// The command envelope: a one-byte variant tag, then the initializer's
/// value for the first variant.
pub open spec fn spec_encode_counter_instruction(i: CounterInstruction) -> Seq<u8> {
    match i {
        CounterInstruction::InitializeCounter { initial_value } => seq![0u8]
            + spec_u64_to_le_bytes(initial_value),
        CounterInstruction::IncrementCounter => seq![1u8],
    }
}

/// What decoding a command envelope yields; the envelope must be consumed
/// exactly.
pub open spec fn spec_decode_counter_instruction(b: Seq<u8>) -> Option<CounterInstruction> {
    if b.len() == 9 && b[0] == 0 {
        Some(
            CounterInstruction::InitializeCounter {
                initial_value: spec_u64_from_le_bytes(b.subrange(1, 9)),
            },
        )
    } else if b.len() == 1 && b[0] == 1 {
        Some(CounterInstruction::IncrementCounter)
    } else {
        None
    }
}

/// Serializes a counter command.
pub fn encode_counter_instruction(i: &CounterInstruction) -> (v: Vec<u8>)
    ensures
        v@ == spec_encode_counter_instruction(*i),
{
    let mut v: Vec<u8> = Vec::new();
    match i {
        CounterInstruction::InitializeCounter { initial_value } => {
            v.push(0u8);
            let mut b = u64_to_le_bytes(*initial_value);
            v.append(&mut b);
        },
        CounterInstruction::IncrementCounter => {
            v.push(1u8);
        },
    }
    proof {
        assert(v@ =~= spec_encode_counter_instruction(*i));
    }
    v
}

/// Deserializes a counter command; fails with `MalformedInstruction` on
/// anything else.
pub fn decode_counter_instruction(bytes: &Vec<u8>) -> (r: Result<
    CounterInstruction,
    crate::error::CardError,
>)
    ensures
        match r {
            Ok(i) => spec_decode_counter_instruction(bytes@) == Some(i),
            Err(e) => e == crate::error::CardError::MalformedInstruction
                && spec_decode_counter_instruction(bytes@) is None,
        },
{
    if bytes.len() == 9 && bytes[0] == 0 {
        let v = u64_from_le_bytes(vstd::slice::slice_subrange(bytes.as_slice(), 1, 9));
        Ok(CounterInstruction::InitializeCounter { initial_value: v })
    } else if bytes.len() == 1 && bytes[0] == 1 {
        Ok(CounterInstruction::IncrementCounter)
    } else {
        Err(crate::error::CardError::MalformedInstruction)
    }
}

/// A command envelope round trip is the identity.
pub proof fn lemma_counter_instruction_round_trip(i: CounterInstruction)
    ensures
        spec_decode_counter_instruction(spec_encode_counter_instruction(i)) == Some(i),
{
    lemma_auto_spec_u64_to_from_le_bytes();
    match i {
        CounterInstruction::InitializeCounter { initial_value } => {
            let b = spec_encode_counter_instruction(i);
            assert(b.subrange(1, 9) =~= spec_u64_to_le_bytes(initial_value));
        },
        CounterInstruction::IncrementCounter => {},
    }
}

/// Initializing a counter allocates 8 bytes and writes the chosen value.
pub fn process_initialize_counter(initial_value: u64) -> (r: (Vec<u8>, usize))
    ensures
        r.0@ == spec_u64_to_le_bytes(initial_value),
        r.1 == 8,
{
    let c = CounterAccount::initialize(initial_value);
    (encode_counter_account(&c), 8)
}

/// Incrementing reads the 8-byte tally, adds one checked, and writes it
/// back in place; a counter account another program owns is refused.
pub fn process_increment_counter(owner_matches: bool, counter_data: &Vec<u8>) -> (r: Result<
    Vec<u8>,
    crate::error::CardError,
>)
    ensures
        match r {
            Ok(v) => owner_matches && counter_data@.len() == 8 && spec_u64_from_le_bytes(
                counter_data@,
            ) < u64::MAX && v@ == spec_u64_to_le_bytes(
                (spec_u64_from_le_bytes(counter_data@) + 1) as u64,
            ),
            Err(e) => {
                &&& !owner_matches || counter_data@.len() != 8 || spec_u64_from_le_bytes(
                    counter_data@,
                ) == u64::MAX
                &&& e == crate::error::CardError::InvalidArgument <==> !owner_matches
                &&& e == crate::error::CardError::CorruptState <==> owner_matches
                    && counter_data@.len() != 8
                &&& e == crate::error::CardError::CounterOverflow <==> owner_matches
                    && counter_data@.len() == 8 && spec_u64_from_le_bytes(counter_data@)
                    == u64::MAX
            },
        },
{
    if !owner_matches {
        return Err(crate::error::CardError::InvalidArgument);
    }
    let mut c = match decode_counter_account(counter_data) {
        Ok(c) => c,
        Err(_) => {
            return Err(crate::error::CardError::CorruptState);
        },
    };
    match c.increment() {
        Ok(()) => Ok(encode_counter_account(&c)),
        Err(e) => Err(e),
    }
}

/// What one counter-program invocation does to the counter allocation:
/// the new 8 bytes and the allocation size, or the error that aborts it.
pub open spec fn spec_process_instruction(
    owner_matches: bool,
    counter_data: Seq<u8>,
    instruction_data: Seq<u8>,
) -> Result<(Seq<u8>, int), crate::error::CardError> {
    match spec_decode_counter_instruction(instruction_data) {
        None => Err(crate::error::CardError::MalformedInstruction),
        Some(CounterInstruction::InitializeCounter { initial_value }) => Ok(
            (spec_u64_to_le_bytes(initial_value), 8int),
        ),
        Some(CounterInstruction::IncrementCounter) => if !owner_matches {
            Err(crate::error::CardError::InvalidArgument)
        } else if counter_data.len() != 8 {
            Err(crate::error::CardError::CorruptState)
        } else if spec_u64_from_le_bytes(counter_data) == u64::MAX {
            Err(crate::error::CardError::CounterOverflow)
        } else {
            Ok((spec_u64_to_le_bytes((spec_u64_from_le_bytes(counter_data) + 1) as u64), 8int))
        },
    }
}

/// Decodes one counter command and performs it against the given counter
/// bytes, returning what the host must write.
pub fn process_instruction(
    owner_matches: bool,
    counter_data: &Vec<u8>,
    instruction_data: &Vec<u8>,
) -> (r: Result<(Vec<u8>, usize), crate::error::CardError>)
    ensures
        match r {
            Ok(p) => spec_process_instruction(owner_matches, counter_data@, instruction_data@)
                == Ok::<(Seq<u8>, int), crate::error::CardError>((p.0@, p.1 as int)),
            Err(e) => spec_process_instruction(owner_matches, counter_data@, instruction_data@)
                == Err::<(Seq<u8>, int), crate::error::CardError>(e),
        },
{
    let instruction = match decode_counter_instruction(instruction_data) {
        Ok(i) => i,
        Err(e) => {
            return Err(e);
        },
    };
    match instruction {
        CounterInstruction::InitializeCounter { initial_value } => {
            let (bytes, space) = process_initialize_counter(initial_value);
            Ok((bytes, space))
        },
        CounterInstruction::IncrementCounter => {
            match process_increment_counter(owner_matches, counter_data) {
                Ok(bytes) => Ok((bytes, 8)),
                Err(e) => Err(e),
            }
        },
    }
}

} // verus!
