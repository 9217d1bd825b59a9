//! Deterministic, program-exclusive address derivation.
//!
//! A storage address is computed from an ordered sequence of seed byte
//! strings plus the program id, searching a one-byte salt downward from 255
//! until the derivation accepts. An accepted address lies outside the space
//! reachable by ordinary key generation, so only program logic can author
//! records there. The per-salt derivation itself is the outside call; the
//! bounded search around it is verified.

use vstd::prelude::*;

use crate::error::CardError;

verus! {

/// A 32-byte account address. Holders, program ids, asset-pool references
/// and derived storage locations are all addresses.
#[derive(Debug)]
pub struct Address {
    pub bytes: Vec<u8>,
}

impl View for Address {
    type V = Seq<u8>;

    open spec fn view(&self) -> Seq<u8> {
        self.bytes@
    }
}

impl Address {
    /// A well-formed address is exactly 32 bytes long.
    pub open spec fn wf(&self) -> bool {
        self@.len() == 32
    }

    pub fn new(bytes: Vec<u8>) -> (a: Address)
        requires
            bytes@.len() == 32,
        ensures
            a.wf() && a@ == bytes@,
    {
        Address { bytes }
    }
}

impl Clone for Address {
    fn clone(&self) -> (r: Self)
        ensures
            r@ == self@,
    {
        let r = Address { bytes: self.bytes.clone() };
        proof {
            assert(r@ =~= self@);
        }
        r
    }
}

/// True exactly when the two addresses hold the same 32 bytes.
pub fn address_eq(a: &Address, b: &Address) -> (r: bool)
    ensures
        r == (a@ == b@),
{
    if a.bytes.len() != b.bytes.len() {
        return false;
    }
    let mut i: usize = 0;
    while i < a.bytes.len()
        invariant
            i <= a.bytes@.len(),
            a.bytes@.len() == b.bytes@.len(),
            forall|j: int| 0 <= j < i ==> a.bytes@[j] == b.bytes@[j],
        decreases a.bytes@.len() - i,
    {
        if a.bytes[i] != b.bytes[i] {
            return false;
        }
        i = i + 1;
    }
    proof {
        assert(a@ =~= b@);
    }
    true
}

/// What the outside derivation returns for one seed sequence and program id:
/// a digest of them alone, or nothing where the digest is unusable (it lands
/// on the ed25519 curve) or a seed oversteps the derivation's own limits.
pub uninterp spec fn program_address_of(seeds: Seq<Seq<u8>>, program_id: Seq<u8>) -> Option<
    Seq<u8>,
>;

/// Relies on solana_program::pubkey::Pubkey::create_program_address: the
/// result is a SHA-256 digest of the seeds (here: the given seeds plus the
/// one-byte salt) and the program id, and so a function of the arguments
/// alone; the call fails rather than returning an address that ordinary key
/// generation could reach; an accepted address is 32 bytes.
#[verifier::external_body]
fn program_address_with_salt(seeds: &Vec<Vec<u8>>, salt: u8, program_id: &Address) -> (r: Option<
    Address,
>)
    requires
        program_id.wf(),
    ensures
        match r {
            Some(a) => a.wf() && program_address_of(
                seeds.deep_view().push(seq![salt]),
                program_id@,
            ) == Some(a@),
            None => program_address_of(seeds.deep_view().push(seq![salt]), program_id@) is None,
        },
{
    let mut refs: Vec<&[u8]> = seeds.iter().map(|s| s.as_slice()).collect();
    let salt_seed = [salt];
    refs.push(&salt_seed);
    let mut pid_bytes = [0u8; 32];
    pid_bytes.copy_from_slice(program_id.bytes.as_slice());
    let pid = solana_program::pubkey::Pubkey::new_from_array(pid_bytes);
    match solana_program::pubkey::Pubkey::create_program_address(&refs, &pid) {
        Ok(pk) => Some(Address { bytes: pk.to_bytes().to_vec() }),
        Err(_) => None,
    }
}

/// The salt that the bounded search settles on, walking downward from the
/// given salt: the greatest salt at or below it whose derivation accepts.
pub open spec fn canonical_from(seeds: Seq<Seq<u8>>, program_id: Seq<u8>, salt: int) -> Option<
    (Seq<u8>, u8),
>
    decreases salt + 1,
{
    if salt < 0 {
        None
    } else {
        match program_address_of(seeds.push(seq![salt as u8]), program_id) {
            Some(a) => Some((a, salt as u8)),
            None => canonical_from(seeds, program_id, salt - 1),
        }
    }
}

/// The canonical address of a seed sequence: the bounded search started at
/// salt 255.
pub open spec fn spec_derive_canonical(seeds: Seq<Seq<u8>>, program_id: Seq<u8>) -> Option<
    (Seq<u8>, u8),
> {
    canonical_from(seeds, program_id, 255)
}

/// The salt the bounded search settles on is the one the derivation
/// accepted, and every greater salt in the searched range was refused:
/// the canonical address is unique for its seed sequence.
pub proof fn lemma_canonical_salt_maximal(
    seeds: Seq<Seq<u8>>,
    program_id: Seq<u8>,
    salt: int,
)
    requires
        canonical_from(seeds, program_id, salt) is Some,
        salt <= 255,
    ensures
        ({
            let p = canonical_from(seeds, program_id, salt)->Some_0;
            &&& 0 <= p.1 <= salt
            &&& program_address_of(seeds.push(seq![p.1]), program_id) == Some(p.0)
            &&& forall|s: int|
                p.1 < s <= salt ==> #[trigger] program_address_of(
                    seeds.push(seq![s as u8]),
                    program_id,
                ) is None
        }),
    decreases salt + 1,
{
    let p = canonical_from(seeds, program_id, salt)->Some_0;
    if program_address_of(seeds.push(seq![salt as u8]), program_id) is Some {
        assert(p.1 == salt);
    } else {
        lemma_canonical_salt_maximal(seeds, program_id, salt - 1);
        assert forall|s: int| p.1 < s <= salt implies #[trigger] program_address_of(
            seeds.push(seq![s as u8]),
            program_id,
        ) is None by {
            if s == salt {
                assert(s as u8 == salt as u8);
            }
        }
    }
}

/// Law: the canonical derivation answers with the greatest salt in the
/// whole searched range whose derivation accepts, and the address it
/// yields there.
pub proof fn lemma_derive_canonical_maximal(seeds: Seq<Seq<u8>>, program_id: Seq<u8>)
    requires
        spec_derive_canonical(seeds, program_id) is Some,
    ensures
        ({
            let p = spec_derive_canonical(seeds, program_id)->Some_0;
            &&& program_address_of(seeds.push(seq![p.1]), program_id) == Some(p.0)
            &&& forall|s: int|
                p.1 < s <= 255 ==> #[trigger] program_address_of(
                    seeds.push(seq![s as u8]),
                    program_id,
                ) is None
        }),
{
    lemma_canonical_salt_maximal(seeds, program_id, 255);
}

/// Derives the canonical address for the seed sequence, searching the salt
/// downward from 255; fails with `DerivationExhausted` when no salt in the
/// range yields an acceptable address, rather than looping unbounded.
pub fn derive_canonical(seeds: &Vec<Vec<u8>>, program_id: &Address) -> (r: Result<
    (Address, u8),
    CardError,
>)
    requires
        program_id.wf(),
    ensures
        match r {
            Ok(p) => p.0.wf() && spec_derive_canonical(seeds.deep_view(), program_id@) == Some(
                (p.0@, p.1),
            ),
            Err(e) => e == CardError::DerivationExhausted && spec_derive_canonical(
                seeds.deep_view(),
                program_id@,
            ) is None,
        },
{
    let mut salt: u8 = 255;
    loop
        invariant
            program_id.wf(),
            canonical_from(seeds.deep_view(), program_id@, 255) == canonical_from(
                seeds.deep_view(),
                program_id@,
                salt as int,
            ),
        decreases salt,
    {
        match program_address_with_salt(seeds, salt, program_id) {
            Some(a) => {
                return Ok((a, salt));
            },
            None => {
                if salt == 0 {
                    proof {
                        assert(canonical_from(seeds.deep_view(), program_id@, -1) is None);
                    }
                    return Err(CardError::DerivationExhausted);
                }
                salt = salt - 1;
            },
        }
    }
}

} // verus!
