//! The rarity tiers and the record types they are issued into.

use vstd::prelude::*;

use crate::derive::Address;

verus! {

/// The maximum length, in bytes, of a subject name.
pub const MAX_SUBJECT_LEN: usize = 50;

/// The closed set of rarity tiers. Each tier is backed by exactly one
/// external asset pool.
#[derive(Clone, Copy, Debug, PartialEq, Eq, Structural)]
pub enum CardRarityInstruction {
    /// Common: awarded once every scarcer slot is exhausted.
    GenesisFragment,
    /// Rare: awarded once the epic slots are exhausted.
    AstralShard,
    /// Epic: the head of the regular scarcity cascade.
    MythicCrest,
    /// Mastery: the quiz path's winning award.
    AscendantSeal,
    /// Knowledge: the quiz path's consolation award.
    CodexOfInsight,
    /// First known sighting: the first issuance for an already-known subject.
    PrimordialRelic,
    /// First new species: the first issuance for a newly discovered subject.
    AuroraSeed,
}

impl CardRarityInstruction {
    /// The one-byte tag a tier is stored and derived under.
    pub open spec fn spec_tag(self) -> u8 {
        match self {
            CardRarityInstruction::GenesisFragment => 0,
            CardRarityInstruction::AstralShard => 1,
            CardRarityInstruction::MythicCrest => 2,
            CardRarityInstruction::AscendantSeal => 3,
            CardRarityInstruction::CodexOfInsight => 4,
            CardRarityInstruction::PrimordialRelic => 5,
            CardRarityInstruction::AuroraSeed => 6,
        }
    }

    pub fn tag(self) -> (t: u8)
        ensures
            t == self.spec_tag(),
    {
        match self {
            CardRarityInstruction::GenesisFragment => 0,
            CardRarityInstruction::AstralShard => 1,
            CardRarityInstruction::MythicCrest => 2,
            CardRarityInstruction::AscendantSeal => 3,
            CardRarityInstruction::CodexOfInsight => 4,
            CardRarityInstruction::PrimordialRelic => 5,
            CardRarityInstruction::AuroraSeed => 6,
        }
    }

    /// The tier a one-byte tag stands for, if any.
    pub open spec fn spec_from_tag(t: u8) -> Option<CardRarityInstruction> {
        if t == 0 {
            Some(CardRarityInstruction::GenesisFragment)
        } else if t == 1 {
            Some(CardRarityInstruction::AstralShard)
        } else if t == 2 {
            Some(CardRarityInstruction::MythicCrest)
        } else if t == 3 {
            Some(CardRarityInstruction::AscendantSeal)
        } else if t == 4 {
            Some(CardRarityInstruction::CodexOfInsight)
        } else if t == 5 {
            Some(CardRarityInstruction::PrimordialRelic)
        } else if t == 6 {
            Some(CardRarityInstruction::AuroraSeed)
        } else {
            None
        }
    }

    pub fn from_tag(t: u8) -> (r: Option<CardRarityInstruction>)
        ensures
            r == CardRarityInstruction::spec_from_tag(t),
    {
        if t == 0 {
            Some(CardRarityInstruction::GenesisFragment)
        } else if t == 1 {
            Some(CardRarityInstruction::AstralShard)
        } else if t == 2 {
            Some(CardRarityInstruction::MythicCrest)
        } else if t == 3 {
            Some(CardRarityInstruction::AscendantSeal)
        } else if t == 4 {
            Some(CardRarityInstruction::CodexOfInsight)
        } else if t == 5 {
            Some(CardRarityInstruction::PrimordialRelic)
        } else if t == 6 {
            Some(CardRarityInstruction::AuroraSeed)
        } else {
            None
        }
    }
}

/// A tag always decodes back to the tier it came from, and only tags 0
/// through 6 decode at all.
pub proof fn lemma_tag_round_trip(c: CardRarityInstruction, t: u8)
    ensures
        CardRarityInstruction::spec_from_tag(c.spec_tag()) == Some(c),
        CardRarityInstruction::spec_from_tag(t) matches Some(d) ==> d.spec_tag() == t,
        t > 6 ==> CardRarityInstruction::spec_from_tag(t) is None,
{
}

/// The immutable proof that a holder owns a card of a given tier for a
/// given subject. Stored at the canonical address derived from exactly that
/// triple, and never updated or deleted once written.
#[derive(Debug)]
pub struct OwnershipRecord {
    pub holder: Address,
    pub subject_name: Vec<u8>,
    pub rarity: CardRarityInstruction,
    pub asset_pool_ref: Address,
}

/// The ghost shape of an ownership record.
#[verifier::ext_equal]
pub ghost struct RecordView {
    pub holder: Seq<u8>,
    pub subject_name: Seq<u8>,
    pub rarity: CardRarityInstruction,
    pub asset_pool_ref: Seq<u8>,
}

impl View for OwnershipRecord {
    type V = RecordView;

    open spec fn view(&self) -> RecordView {
        RecordView {
            holder: self.holder@,
            subject_name: self.subject_name@,
            rarity: self.rarity,
            asset_pool_ref: self.asset_pool_ref@,
        }
    }
}

impl RecordView {
    /// Addresses are 32 bytes and the subject name fits the name cap.
    pub open spec fn wf(self) -> bool {
        &&& self.holder.len() == 32
        &&& self.asset_pool_ref.len() == 32
        &&& self.subject_name.len() <= MAX_SUBJECT_LEN
    }
}

/// One collected card as a client displays it.
#[derive(Debug)]
pub struct CardAccount {
    pub card_id: u64,
    pub owner: Address,
    pub rarity: CardRarityInstruction,
    pub ipfs_cid: Vec<u64>,
    pub discovered_at: i64,
}

} // verus!
