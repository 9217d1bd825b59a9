//! The fixed storage encodings of the counter and the ownership record.
//!
//! Every field is little-endian and length-prefixed where variable: a name
//! is a 4-byte length followed by its bytes, a tally is 8 bytes, an
//! optional address is a one-byte tag followed by 32 bytes when present.
//! An allocation is always pre-sized to the maximum shape of its record, so
//! a re-persist can never outgrow it; decoding therefore reads a prefix and
//! leaves trailing padding alone.

use vstd::prelude::*;
use vstd::bytes::lemma_auto_spec_u32_to_from_le_bytes;
use vstd::bytes::lemma_auto_spec_u64_to_from_le_bytes;
use vstd::bytes::spec_u32_from_le_bytes;
use vstd::bytes::spec_u32_to_le_bytes;
use vstd::bytes::spec_u64_from_le_bytes;
use vstd::bytes::spec_u64_to_le_bytes;
use vstd::bytes::u32_from_le_bytes;
use vstd::bytes::u32_to_le_bytes;
use vstd::bytes::u64_from_le_bytes;
use vstd::bytes::u64_to_le_bytes;
use vstd::slice::slice_subrange;
use vstd::slice::slice_to_vec;

use crate::derive::Address;
use crate::engine::CounterView;
use crate::engine::PlantCounter;
use crate::error::CardError;
use crate::instruction::CardRarityInstruction;
use crate::instruction::OwnershipRecord;
use crate::instruction::RecordView;
use crate::instruction::MAX_SUBJECT_LEN;

verus! {

/// Every persisted counter allocation is pre-sized to this many bytes: the
/// longest name, all seven tallies, and a recorded first minter.
pub const COUNTER_MAX_SPACE: usize = 4 + 50 + 7 * 8 + 1 + 32;

/// Every ownership record allocation is exactly this many bytes: the
/// holder, the longest name, the rarity tag, and the asset-pool reference.
pub const RECORD_MAX_SPACE: usize = 32 + 4 + 50 + 1 + 32;

/// A length-prefixed byte string: 4 bytes of little-endian length, then the
/// bytes themselves.
pub open spec fn spec_encode_name(name: Seq<u8>) -> Seq<u8>
    recommends
        name.len() <= MAX_SUBJECT_LEN,
{
    spec_u32_to_le_bytes(name.len() as u32) + name
}

/// An optional address: tag 0 alone, or tag 1 followed by the 32 bytes.
pub open spec fn spec_encode_opt_address(m: Option<Seq<u8>>) -> Seq<u8> {
    match m {
        None => seq![0u8],
        Some(h) => seq![1u8] + h,
    }
}

/// The counter's storage encoding: name, the seven tallies in tier order,
/// then the optional first minter.
pub open spec fn spec_encode_counter(c: CounterView) -> Seq<u8>
    recommends
        c.wf(),
{
    spec_encode_name(c.plant_name) + spec_u64_to_le_bytes(c.seed_count) + spec_u64_to_le_bytes(
        c.relic_count,
    ) + spec_u64_to_le_bytes(c.epic_count) + spec_u64_to_le_bytes(c.rare_count)
        + spec_u64_to_le_bytes(c.common_count) + spec_u64_to_le_bytes(c.mastery_count)
        + spec_u64_to_le_bytes(c.codex_count) + spec_encode_opt_address(c.first_minter)
}

/// What decoding a counter allocation yields: the parsed counter, or
/// nothing where the bytes do not hold one.
pub open spec fn spec_decode_counter(b: Seq<u8>) -> Option<CounterView> {
    if b.len() < 4 {
        None
    } else {
        let n = spec_u32_from_le_bytes(b.subrange(0, 4)) as int;
        if n > MAX_SUBJECT_LEN || b.len() < 4 + n + 57 {
            None
        } else {
            let counts = 4 + n;
            let tag_at = counts + 56;
            let c = CounterView {
                plant_name: b.subrange(4, 4 + n),
                seed_count: spec_u64_from_le_bytes(b.subrange(counts, counts + 8)),
                relic_count: spec_u64_from_le_bytes(b.subrange(counts + 8, counts + 16)),
                epic_count: spec_u64_from_le_bytes(b.subrange(counts + 16, counts + 24)),
                rare_count: spec_u64_from_le_bytes(b.subrange(counts + 24, counts + 32)),
                common_count: spec_u64_from_le_bytes(b.subrange(counts + 32, counts + 40)),
                mastery_count: spec_u64_from_le_bytes(b.subrange(counts + 40, counts + 48)),
                codex_count: spec_u64_from_le_bytes(b.subrange(counts + 48, counts + 56)),
                first_minter: None,
            };
            if b[tag_at] == 0 {
                Some(c)
            } else if b[tag_at] == 1 && b.len() >= tag_at + 33 {
                Some(CounterView { first_minter: Some(b.subrange(tag_at + 1, tag_at + 33)), ..c })
            } else {
                None
            }
        }
    }
}

/// Appends a copy of `src` to `out`.
fn push_bytes(out: &mut Vec<u8>, src: &Vec<u8>)
    ensures
        final(out)@ == old(out)@ + src@,
{
    let mut i: usize = 0;
    while i < src.len()
        invariant
            i <= src@.len(),
            out@ == old(out)@ + src@.subrange(0, i as int),
        decreases src@.len() - i,
    {
        out.push(src[i]);
        i = i + 1;
        proof {
            assert(out@ =~= old(out)@ + src@.subrange(0, i as int));
        }
    }
    proof {
        assert(src@.subrange(0, src@.len() as int) =~= src@);
    }
}

/// Appends the 4-byte little-endian form of `x` to `out`.
fn push_u32(out: &mut Vec<u8>, x: u32)
    ensures
        final(out)@ == old(out)@ + spec_u32_to_le_bytes(x),
{
    let mut b = u32_to_le_bytes(x);
    out.append(&mut b);
}

/// Appends the 8-byte little-endian form of `x` to `out`.
fn push_u64(out: &mut Vec<u8>, x: u64)
    ensures
        final(out)@ == old(out)@ + spec_u64_to_le_bytes(x),
{
    let mut b = u64_to_le_bytes(x);
    out.append(&mut b);
}

/// Serializes a counter. The result always fits the pre-sized allocation.
pub fn encode_counter(c: &PlantCounter) -> (v: Vec<u8>)
    requires
        c@.wf(),
    ensures
        v@ == spec_encode_counter(c@),
        v@.len() <= COUNTER_MAX_SPACE,
{
    let mut v: Vec<u8> = Vec::new();
    push_u32(&mut v, c.plant_name.len() as u32);
    push_bytes(&mut v, &c.plant_name);
    push_u64(&mut v, c.seed_count);
    push_u64(&mut v, c.relic_count);
    push_u64(&mut v, c.epic_count);
    push_u64(&mut v, c.rare_count);
    push_u64(&mut v, c.common_count);
    push_u64(&mut v, c.mastery_count);
    push_u64(&mut v, c.codex_count);
    match &c.first_minter {
        None => {
            v.push(0u8);
        },
        Some(h) => {
            v.push(1u8);
            push_bytes(&mut v, &h.bytes);
        },
    }
    proof {
        lemma_auto_spec_u32_to_from_le_bytes();
        lemma_auto_spec_u64_to_from_le_bytes();
        assert(v@ =~= spec_encode_counter(c@));
    }
    v
}

/// Deserializes a counter allocation, ignoring trailing padding; fails with
/// `CorruptState` on bytes that do not hold the expected shape.
pub fn decode_counter(bytes: &Vec<u8>) -> (r: Result<PlantCounter, CardError>)
    ensures
        match r {
            Ok(c) => spec_decode_counter(bytes@) == Some(c@) && c@.wf(),
            Err(e) => e == CardError::CorruptState && spec_decode_counter(bytes@) is None,
        },
{
    proof {
        lemma_auto_spec_u32_to_from_le_bytes();
    }
    if bytes.len() < 4 {
        return Err(CardError::CorruptState);
    }
    let n32 = u32_from_le_bytes(slice_subrange(bytes.as_slice(), 0, 4));
    if n32 > MAX_SUBJECT_LEN as u32 {
        return Err(CardError::CorruptState);
    }
    let n = n32 as usize;
    if bytes.len() < 4 + n + 57 {
        return Err(CardError::CorruptState);
    }
    let counts = 4 + n;
    let tag_at = counts + 56;
    let plant_name = slice_to_vec(slice_subrange(bytes.as_slice(), 4, 4 + n));
    let seed_count = u64_from_le_bytes(slice_subrange(bytes.as_slice(), counts, counts + 8));
    let relic_count = u64_from_le_bytes(
        slice_subrange(bytes.as_slice(), counts + 8, counts + 16),
    );
    let epic_count = u64_from_le_bytes(
        slice_subrange(bytes.as_slice(), counts + 16, counts + 24),
    );
    let rare_count = u64_from_le_bytes(
        slice_subrange(bytes.as_slice(), counts + 24, counts + 32),
    );
    let common_count = u64_from_le_bytes(
        slice_subrange(bytes.as_slice(), counts + 32, counts + 40),
    );
    let mastery_count = u64_from_le_bytes(
        slice_subrange(bytes.as_slice(), counts + 40, counts + 48),
    );
    let codex_count = u64_from_le_bytes(
        slice_subrange(bytes.as_slice(), counts + 48, counts + 56),
    );
    let tag = bytes[tag_at];
    let first_minter: Option<Address> = if tag == 0 {
        None
    } else if tag == 1 && bytes.len() >= tag_at + 33 {
        Some(
            Address::new(slice_to_vec(slice_subrange(bytes.as_slice(), tag_at + 1, tag_at + 33))),
        )
    } else {
        return Err(CardError::CorruptState);
    };
    let c = PlantCounter {
        plant_name,
        seed_count,
        relic_count,
        epic_count,
        rare_count,
        common_count,
        mastery_count,
        codex_count,
        first_minter,
    };
    proof {
        assert(spec_decode_counter(bytes@) == Some(c@));
    }
    Ok(c)
}

/// A round trip through the counter encoding is the identity, whatever
/// padding follows the encoded prefix in the allocation.
pub proof fn lemma_counter_round_trip(c: CounterView, pad: Seq<u8>)
    requires
        c.wf(),
    ensures
        spec_decode_counter(spec_encode_counter(c) + pad) == Some(c),
{
    lemma_auto_spec_u32_to_from_le_bytes();
    lemma_auto_spec_u64_to_from_le_bytes();
    let b = spec_encode_counter(c) + pad;
    let n = c.plant_name.len() as int;
    assert(b.subrange(0, 4) =~= spec_u32_to_le_bytes(c.plant_name.len() as u32));
    let counts = 4 + n;
    assert(b.subrange(4, 4 + n) =~= c.plant_name);
    assert(b.subrange(counts, counts + 8) =~= spec_u64_to_le_bytes(c.seed_count));
    assert(b.subrange(counts + 8, counts + 16) =~= spec_u64_to_le_bytes(c.relic_count));
    assert(b.subrange(counts + 16, counts + 24) =~= spec_u64_to_le_bytes(c.epic_count));
    assert(b.subrange(counts + 24, counts + 32) =~= spec_u64_to_le_bytes(c.rare_count));
    assert(b.subrange(counts + 32, counts + 40) =~= spec_u64_to_le_bytes(c.common_count));
    assert(b.subrange(counts + 40, counts + 48) =~= spec_u64_to_le_bytes(c.mastery_count));
    assert(b.subrange(counts + 48, counts + 56) =~= spec_u64_to_le_bytes(c.codex_count));
    let tag_at = counts + 56;
    match c.first_minter {
        None => {
            assert(b[tag_at] == 0);
        },
        Some(h) => {
            assert(b[tag_at] == 1);
            assert(b.subrange(tag_at + 1, tag_at + 33) =~= h);
        },
    }
    assert(spec_decode_counter(b) matches Some(d) && d =~= c);
}

/// Law: every well-formed counter's encoding fits the pre-sized
/// allocation, whatever its tallies and whether or not a first minter is
/// recorded yet — so no later persist for the same subject can outgrow
/// the allocation made on the first.
pub proof fn lemma_counter_fits_allocation(c: CounterView)
    requires
        c.wf(),
    ensures
        spec_encode_counter(c).len() <= COUNTER_MAX_SPACE,
{
    lemma_auto_spec_u32_to_from_le_bytes();
    lemma_auto_spec_u64_to_from_le_bytes();
}

/// The ownership record's storage encoding: holder, name, rarity tag,
/// asset-pool reference.
pub open spec fn spec_encode_record(r: RecordView) -> Seq<u8>
    recommends
        r.wf(),
{
    r.holder + spec_encode_name(r.subject_name) + seq![r.rarity.spec_tag()] + r.asset_pool_ref
}

/// What decoding a record allocation yields: the parsed record, or nothing
/// where the bytes do not hold one.
pub open spec fn spec_decode_record(b: Seq<u8>) -> Option<RecordView> {
    if b.len() < 36 {
        None
    } else {
        let n = spec_u32_from_le_bytes(b.subrange(32, 36)) as int;
        if n > MAX_SUBJECT_LEN || b.len() < 36 + n + 33 {
            None
        } else {
            match CardRarityInstruction::spec_from_tag(b[36 + n]) {
                None => None,
                Some(rarity) => Some(
                    RecordView {
                        holder: b.subrange(0, 32),
                        subject_name: b.subrange(36, 36 + n),
                        rarity: rarity,
                        asset_pool_ref: b.subrange(36 + n + 1, 36 + n + 33),
                    },
                ),
            }
        }
    }
}

/// Serializes an ownership record. The result always fits the pre-sized
/// allocation.
pub fn encode_record(r: &OwnershipRecord) -> (v: Vec<u8>)
    requires
        r@.wf(),
    ensures
        v@ == spec_encode_record(r@),
        v@.len() <= RECORD_MAX_SPACE,
{
    let mut v: Vec<u8> = Vec::new();
    push_bytes(&mut v, &r.holder.bytes);
    push_u32(&mut v, r.subject_name.len() as u32);
    push_bytes(&mut v, &r.subject_name);
    v.push(r.rarity.tag());
    push_bytes(&mut v, &r.asset_pool_ref.bytes);
    proof {
        lemma_auto_spec_u32_to_from_le_bytes();
        assert(v@ =~= spec_encode_record(r@));
    }
    v
}

/// Deserializes a record allocation, ignoring trailing padding; fails with
/// `CorruptState` on bytes that do not hold the expected shape.
pub fn decode_record(bytes: &Vec<u8>) -> (r: Result<OwnershipRecord, CardError>)
    ensures
        match r {
            Ok(rec) => spec_decode_record(bytes@) == Some(rec@) && rec@.wf(),
            Err(e) => e == CardError::CorruptState && spec_decode_record(bytes@) is None,
        },
{
    proof {
        lemma_auto_spec_u32_to_from_le_bytes();
    }
    if bytes.len() < 36 {
        return Err(CardError::CorruptState);
    }
    let n32 = u32_from_le_bytes(slice_subrange(bytes.as_slice(), 32, 36));
    if n32 > MAX_SUBJECT_LEN as u32 {
        return Err(CardError::CorruptState);
    }
    let n = n32 as usize;
    if bytes.len() < 36 + n + 33 {
        return Err(CardError::CorruptState);
    }
    let holder = Address::new(slice_to_vec(slice_subrange(bytes.as_slice(), 0, 32)));
    let subject_name = slice_to_vec(slice_subrange(bytes.as_slice(), 36, 36 + n));
    let rarity = match CardRarityInstruction::from_tag(bytes[36 + n]) {
        Some(t) => t,
        None => {
            return Err(CardError::CorruptState);
        },
    };
    let asset_pool_ref = Address::new(
        slice_to_vec(slice_subrange(bytes.as_slice(), 36 + n + 1, 36 + n + 33)),
    );
    let rec = OwnershipRecord { holder, subject_name, rarity, asset_pool_ref };
    proof {
        assert(spec_decode_record(bytes@) == Some(rec@));
    }
    Ok(rec)
}

/// A round trip through the record encoding is the identity, whatever
/// padding follows the encoded prefix in the allocation.
pub proof fn lemma_record_round_trip(r: RecordView, pad: Seq<u8>)
    requires
        r.wf(),
    ensures
        spec_decode_record(spec_encode_record(r) + pad) == Some(r),
{
    lemma_auto_spec_u32_to_from_le_bytes();
    let b = spec_encode_record(r) + pad;
    let n = r.subject_name.len() as int;
    assert(b.subrange(0, 32) =~= r.holder);
    assert(b.subrange(32, 36) =~= spec_u32_to_le_bytes(r.subject_name.len() as u32));
    assert(b.subrange(36, 36 + n) =~= r.subject_name);
    assert(b[36 + n] == r.rarity.spec_tag());
    crate::instruction::lemma_tag_round_trip(r.rarity, 0);
    assert(b.subrange(36 + n + 1, 36 + n + 33) =~= r.asset_pool_ref);
    assert(spec_decode_record(b) matches Some(d) && d =~= r);
}

} // verus!
