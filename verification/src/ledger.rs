//! The ownership ledger and the subject counter store.
//!
//! Each ownership record lives at the canonical address derived from
//! exactly its (subject, holder, rarity) triple, and each subject counter
//! at the canonical address derived from the counter namespace and the
//! subject. Whether an allocation already exists at an address is read off
//! its funding, never by deserializing contents.

use vstd::prelude::*;

use crate::codec::encode_counter;
use crate::codec::encode_record;
use crate::codec::spec_decode_counter;
use crate::codec::spec_encode_counter;
use crate::codec::spec_encode_record;
use crate::codec::COUNTER_MAX_SPACE;
use crate::codec::RECORD_MAX_SPACE;
use crate::derive::derive_canonical;
use crate::derive::spec_derive_canonical;
use crate::derive::Address;
use crate::engine::fresh_counter;
use crate::engine::PlantCounter;
use crate::error::CardError;
use crate::instruction::CardRarityInstruction;
use crate::instruction::OwnershipRecord;
use crate::instruction::RecordView;
use crate::instruction::MAX_SUBJECT_LEN;

verus! {

/// The seed bytes of the counter namespace: the ASCII of "plant_counter".
pub open spec fn counter_namespace() -> Seq<u8> {
    seq![112u8, 108u8, 97u8, 110u8, 116u8, 95u8, 99u8, 111u8, 117u8, 110u8, 116u8, 101u8, 114u8]
}

/// Builds the counter namespace seed.
pub fn counter_namespace_bytes() -> (v: Vec<u8>)
    ensures
        v@ == counter_namespace(),
{
    let v: Vec<u8> = vec![112u8, 108u8, 97u8, 110u8, 116u8, 95u8, 99u8, 111u8, 117u8, 110u8, 116u8, 101u8, 114u8];
    proof {
        assert(v@ =~= counter_namespace());
    }
    v
}

/// The seed tuple an ownership record's address is derived from: the
/// subject name, the holder, and the one-byte rarity tag.
pub open spec fn ownership_seeds(
    subject: Seq<u8>,
    holder: Seq<u8>,
    rarity: CardRarityInstruction,
) -> Seq<Seq<u8>> {
    seq![subject, holder, seq![rarity.spec_tag()]]
}

/// The seed tuple a subject counter's address is derived from: the counter
/// namespace and the subject name.
pub open spec fn counter_seeds(subject: Seq<u8>) -> Seq<Seq<u8>> {
    seq![counter_namespace(), subject]
}

/// Builds the ownership seed tuple.
pub fn ownership_seed_vecs(
    subject: &Vec<u8>,
    holder: &Address,
    rarity: CardRarityInstruction,
) -> (v: Vec<Vec<u8>>)
    ensures
        v.deep_view() == ownership_seeds(subject@, holder@, rarity),
{
    let mut v: Vec<Vec<u8>> = Vec::new();
    let s = subject.clone();
    proof {
        assert(s@ =~= subject@);
    }
    v.push(s);
    v.push(holder.bytes.clone());
    let mut tag: Vec<u8> = Vec::new();
    tag.push(rarity.tag());
    v.push(tag);
    proof {
        assert(v@[1]@ =~= holder@);
        assert(v.deep_view() =~~= ownership_seeds(subject@, holder@, rarity));
    }
    v
}

/// Builds the counter seed tuple.
pub fn counter_seed_vecs(subject: &Vec<u8>) -> (v: Vec<Vec<u8>>)
    ensures
        v.deep_view() == counter_seeds(subject@),
{
    let mut v: Vec<Vec<u8>> = Vec::new();
    v.push(counter_namespace_bytes());
    let s = subject.clone();
    proof {
        assert(s@ =~= subject@);
    }
    v.push(s);
    proof {
        assert(v.deep_view() =~~= counter_seeds(subject@));
    }
    v
}

/// Where an ownership record for the triple must live, with its salt.
pub open spec fn ownership_address(
    subject: Seq<u8>,
    holder: Seq<u8>,
    rarity: CardRarityInstruction,
    program_id: Seq<u8>,
) -> Option<(Seq<u8>, u8)> {
    spec_derive_canonical(ownership_seeds(subject, holder, rarity), program_id)
}

/// Where a subject's counter must live, with its salt.
pub open spec fn counter_address(subject: Seq<u8>, program_id: Seq<u8>) -> Option<(Seq<u8>, u8)> {
    spec_derive_canonical(counter_seeds(subject), program_id)
}

/// What `reserve` decides from the derived address, the caller-supplied
/// account and the funding found there.
pub open spec fn spec_reserve(
    subject: Seq<u8>,
    holder: Seq<u8>,
    rarity: CardRarityInstruction,
    supplied: Seq<u8>,
    existing_lamports: u64,
    program_id: Seq<u8>,
) -> Result<(Seq<u8>, u8), CardError> {
    match ownership_address(subject, holder, rarity, program_id) {
        None => Err(CardError::DerivationExhausted),
        Some(p) => if p.0 != supplied {
            Err(CardError::InvalidArgument)
        } else if existing_lamports != 0 {
            Err(CardError::AlreadyOwned)
        } else {
            Ok(p)
        },
    }
}

/// Reserves the unique slot for one (subject, holder, rarity) triple:
/// derives the canonical record address, refuses a caller-supplied account
/// that differs from it with `InvalidArgument`, and refuses a slot that is
/// already funded — a record already exists — with `AlreadyOwned`.
pub fn reserve(
    subject: &Vec<u8>,
    holder: &Address,
    rarity: CardRarityInstruction,
    caller_supplied: &Address,
    existing_lamports: u64,
    program_id: &Address,
) -> (r: Result<(Address, u8), CardError>)
    requires
        program_id.wf(),
    ensures
        match r {
            Ok(p) => p.0.wf() && spec_reserve(
                subject@,
                holder@,
                rarity,
                caller_supplied@,
                existing_lamports,
                program_id@,
            ) == Ok::<(Seq<u8>, u8), CardError>((p.0@, p.1)),
            Err(e) => spec_reserve(
                subject@,
                holder@,
                rarity,
                caller_supplied@,
                existing_lamports,
                program_id@,
            ) == Err::<(Seq<u8>, u8), CardError>(e),
        },
{
    let seeds = ownership_seed_vecs(subject, holder, rarity);
    match derive_canonical(&seeds, program_id) {
        Err(e) => Err(e),
        Ok((derived, salt)) => {
            if !crate::derive::address_eq(&derived, caller_supplied) {
                Err(CardError::InvalidArgument)
            } else if existing_lamports != 0 {
                Err(CardError::AlreadyOwned)
            } else {
                Ok((derived, salt))
            }
        },
    }
}

/// What app code must write to commit a record: the serialized bytes and
/// the allocation size, fixed at the record's maximum shape so the one
/// irreversible write always fits.
pub fn commit_record(record: &OwnershipRecord) -> (r: (Vec<u8>, usize))
    requires
        record@.wf(),
    ensures
        r.0@ == spec_encode_record(record@),
        r.0@.len() <= RECORD_MAX_SPACE,
        r.1 == RECORD_MAX_SPACE,
{
    (encode_record(record), RECORD_MAX_SPACE)
}

/// What `load_or_init` yields for a subject: the zero-valued counter where
/// no allocation exists yet (and the fact that this is the subject's first
/// chain occurrence), or the decoded counter.
pub open spec fn spec_load_or_init(subject: Seq<u8>, existing: Option<Seq<u8>>) -> Result<
    (crate::engine::CounterView, bool),
    CardError,
> {
    match existing {
        None => Ok((fresh_counter(subject), true)),
        Some(b) => match spec_decode_counter(b) {
            None => Err(CardError::CorruptState),
            Some(c) => Ok((c, false)),
        },
    }
}

/// Loads the subject's counter, or initializes a zero-valued one where no
/// allocation exists; fails with `CorruptState` exactly where existing
/// bytes do not decode to the expected shape.
pub fn load_or_init(subject: &Vec<u8>, existing: Option<&Vec<u8>>) -> (r: Result<
    (PlantCounter, bool),
    CardError,
>)
    requires
        subject@.len() <= MAX_SUBJECT_LEN,
    ensures
        match r {
            Ok(p) => spec_load_or_init(
                subject@,
                match existing {
                    Some(b) => Some(b@),
                    None => None,
                },
            ) == Ok::<(crate::engine::CounterView, bool), CardError>((p.0@, p.1)) && p.0@.wf(),
            Err(e) => spec_load_or_init(
                subject@,
                match existing {
                    Some(b) => Some(b@),
                    None => None,
                },
            ) == Err::<(crate::engine::CounterView, bool), CardError>(e),
        },
{
    match existing {
        None => {
            let s = subject.clone();
            proof {
                assert(s@ =~= subject@);
            }
            let c = PlantCounter::new_fresh(s);
            Ok((c, true))
        },
        Some(bytes) => {
            match crate::codec::decode_counter(bytes) {
                Ok(c) => Ok((c, false)),
                Err(e) => Err(e),
            }
        },
    }
}

/// What app code must write to persist a counter: the serialized bytes and
/// the allocation size. The allocation is pre-sized to the counter's
/// maximum shape up front, so the encoding can never outgrow it on a later
/// persist.
pub fn persist_counter(counter: &PlantCounter) -> (r: (Vec<u8>, usize))
    requires
        counter@.wf(),
    ensures
        r.0@ == spec_encode_counter(counter@),
        r.0@.len() <= COUNTER_MAX_SPACE,
        r.1 == COUNTER_MAX_SPACE,
{
    (encode_counter(counter), COUNTER_MAX_SPACE)
}

/// A ledger is well-formed when every record is stored at the canonical
/// address derived from its own triple.
pub open spec fn ledger_wf(m: Map<Seq<u8>, RecordView>, program_id: Seq<u8>) -> bool {
    forall|a: Seq<u8>| #[trigger]
        m.dom().contains(a) ==> (ownership_address(
            m[a].subject_name,
            m[a].holder,
            m[a].rarity,
            program_id,
        ) matches Some(p) && p.0 == a)
}

/// Law: for all subjects, holders and rarities, at most one ownership
/// record exists for the triple. In a well-formed ledger the storage
/// address is a pure function of the triple, so two records with the same
/// triple sit at the same key and are the same record.
pub proof fn lemma_ownership_unique(
    m: Map<Seq<u8>, RecordView>,
    program_id: Seq<u8>,
    a1: Seq<u8>,
    a2: Seq<u8>,
)
    requires
        ledger_wf(m, program_id),
        m.dom().contains(a1),
        m.dom().contains(a2),
        m[a1].subject_name == m[a2].subject_name,
        m[a1].holder == m[a2].holder,
        m[a1].rarity == m[a2].rarity,
    ensures
        a1 == a2,
{
}

/// Law: a well-formed ledger stays well-formed when a record is committed
/// at its own canonical address, so uniqueness is preserved across every
/// issuance the orchestrator commits.
pub proof fn lemma_ledger_wf_commit(
    m: Map<Seq<u8>, RecordView>,
    program_id: Seq<u8>,
    rec: RecordView,
    a: Seq<u8>,
)
    requires
        ledger_wf(m, program_id),
        ownership_address(rec.subject_name, rec.holder, rec.rarity, program_id) matches Some(p)
            && p.0 == a,
    ensures
        ledger_wf(m.insert(a, rec), program_id),
{
}

} // verus!
