//! The rarity rules engine: a pure decision function from the current
//! per-subject counter state and the discovery flags to a rarity tier and
//! the counter's next value.

use vstd::prelude::*;

use crate::derive::Address;
use crate::error::CardError;
use crate::instruction::CardRarityInstruction;
use crate::instruction::MAX_SUBJECT_LEN;

verus! {

/// How many Epic awards a subject gets before the cascade switches to Rare.
pub const MAX_EPIC_BEFORE_RARE: u64 = 20;

/// How many Rare awards a subject gets before the cascade switches to Common.
pub const MAX_RARE_BEFORE_COMMON: u64 = 50;

/// Which of the two mutually exclusive decision domains governs an issuance.
#[derive(Clone, Copy, Debug, PartialEq, Eq, Structural)]
pub enum MintPath {
    /// The discovery-ordered scarcity cascade.
    Regular { is_new_subject: bool },
    /// The quiz domain: win or learn.
    Quiz { quiz_winner: bool },
}

/// The per-subject running tally of issuances per rarity tier, plus the
/// first-discoverer bookkeeping. Created zero-valued on a subject's first
/// issuance, mutated on every later one, never destroyed.
#[derive(Debug)]
pub struct PlantCounter {
    pub plant_name: Vec<u8>,
    pub seed_count: u64,
    pub relic_count: u64,
    pub epic_count: u64,
    pub rare_count: u64,
    pub common_count: u64,
    pub mastery_count: u64,
    pub codex_count: u64,
    pub first_minter: Option<Address>,
}

/// The ghost shape of a subject counter.
#[verifier::ext_equal]
pub ghost struct CounterView {
    pub plant_name: Seq<u8>,
    pub seed_count: u64,
    pub relic_count: u64,
    pub epic_count: u64,
    pub rare_count: u64,
    pub common_count: u64,
    pub mastery_count: u64,
    pub codex_count: u64,
    pub first_minter: Option<Seq<u8>>,
}

impl View for PlantCounter {
    type V = CounterView;

    open spec fn view(&self) -> CounterView {
        CounterView {
            plant_name: self.plant_name@,
            seed_count: self.seed_count,
            relic_count: self.relic_count,
            epic_count: self.epic_count,
            rare_count: self.rare_count,
            common_count: self.common_count,
            mastery_count: self.mastery_count,
            codex_count: self.codex_count,
            first_minter: match self.first_minter {
                Some(a) => Some(a@),
                None => None,
            },
        }
    }
}

impl CounterView {
    /// The name fits the cap and the discoverer, if recorded, is an address.
    pub open spec fn wf(self) -> bool {
        &&& self.plant_name.len() <= MAX_SUBJECT_LEN
        &&& self.first_minter matches Some(h) ==> h.len() == 32
    }
}

/// The zero-valued counter a subject starts from.
pub open spec fn fresh_counter(plant_name: Seq<u8>) -> CounterView {
    CounterView {
        plant_name: plant_name,
        seed_count: 0,
        relic_count: 0,
        epic_count: 0,
        rare_count: 0,
        common_count: 0,
        mastery_count: 0,
        codex_count: 0,
        first_minter: None,
    }
}

impl PlantCounter {
    /// Builds the zero-valued counter for a subject.
    pub fn new_fresh(plant_name: Vec<u8>) -> (c: PlantCounter)
        ensures
            c@ =~= fresh_counter(plant_name@),
    {
        PlantCounter {
            plant_name,
            seed_count: 0,
            relic_count: 0,
            epic_count: 0,
            rare_count: 0,
            common_count: 0,
            mastery_count: 0,
            codex_count: 0,
            first_minter: None,
        }
    }
}

impl Clone for PlantCounter {
    fn clone(&self) -> (r: Self)
        ensures
            r@ =~= self@,
    {
        PlantCounter {
            plant_name: self.plant_name.clone(),
            seed_count: self.seed_count,
            relic_count: self.relic_count,
            epic_count: self.epic_count,
            rare_count: self.rare_count,
            common_count: self.common_count,
            mastery_count: self.mastery_count,
            codex_count: self.codex_count,
            first_minter: match &self.first_minter {
                Some(a) => Some(a.clone()),
                None => None,
            },
        }
    }
}

/// The tier the regular path awards, first match wins: the two
/// first-discovery rules, then the scarcity cascade.
pub open spec fn regular_tier(
    c: CounterView,
    is_new_subject: bool,
    is_first_chain_occurrence: bool,
) -> CardRarityInstruction {
    if is_new_subject && is_first_chain_occurrence && c.seed_count == 0 {
        CardRarityInstruction::AuroraSeed
    } else if !is_new_subject && is_first_chain_occurrence && c.relic_count == 0 {
        CardRarityInstruction::PrimordialRelic
    } else if c.epic_count < MAX_EPIC_BEFORE_RARE {
        CardRarityInstruction::MythicCrest
    } else if c.rare_count < MAX_RARE_BEFORE_COMMON {
        CardRarityInstruction::AstralShard
    } else {
        CardRarityInstruction::GenesisFragment
    }
}

/// The tier the quiz path awards.
pub open spec fn quiz_tier(quiz_winner: bool) -> CardRarityInstruction {
    if quiz_winner {
        CardRarityInstruction::AscendantSeal
    } else {
        CardRarityInstruction::CodexOfInsight
    }
}

/// The tier an issuance is decided to, over both domains.
pub open spec fn decided_tier(
    c: CounterView,
    path: MintPath,
    is_first_chain_occurrence: bool,
) -> CardRarityInstruction {
    match path {
        MintPath::Regular { is_new_subject } => regular_tier(
            c,
            is_new_subject,
            is_first_chain_occurrence,
        ),
        MintPath::Quiz { quiz_winner } => quiz_tier(quiz_winner),
    }
}

/// Whether awarding the tier would overflow a counter field. Overflow is
/// fatal, never wrapped.
pub open spec fn increment_overflows(c: CounterView, tier: CardRarityInstruction) -> bool {
    match tier {
        CardRarityInstruction::AuroraSeed => c.seed_count == u64::MAX || c.epic_count == u64::MAX,
        CardRarityInstruction::PrimordialRelic => c.relic_count == u64::MAX || c.epic_count
            == u64::MAX,
        CardRarityInstruction::MythicCrest => c.epic_count == u64::MAX,
        CardRarityInstruction::AstralShard => c.rare_count == u64::MAX,
        CardRarityInstruction::GenesisFragment => c.common_count == u64::MAX,
        CardRarityInstruction::AscendantSeal => c.mastery_count == u64::MAX,
        CardRarityInstruction::CodexOfInsight => c.codex_count == u64::MAX,
    }
}

/// The counter after awarding the tier to the holder: the tier's own tally
/// moves up by one; a first-discovery award also takes an epic slot and
/// records the discoverer.
pub open spec fn counter_after(
    c: CounterView,
    tier: CardRarityInstruction,
    holder: Seq<u8>,
) -> CounterView
    recommends
        !increment_overflows(c, tier),
{
    match tier {
        CardRarityInstruction::AuroraSeed => CounterView {
            seed_count: (c.seed_count + 1) as u64,
            epic_count: (c.epic_count + 1) as u64,
            first_minter: Some(holder),
            ..c
        },
        CardRarityInstruction::PrimordialRelic => CounterView {
            relic_count: (c.relic_count + 1) as u64,
            epic_count: (c.epic_count + 1) as u64,
            first_minter: Some(holder),
            ..c
        },
        CardRarityInstruction::MythicCrest => CounterView {
            epic_count: (c.epic_count + 1) as u64,
            ..c
        },
        CardRarityInstruction::AstralShard => CounterView {
            rare_count: (c.rare_count + 1) as u64,
            ..c
        },
        CardRarityInstruction::GenesisFragment => CounterView {
            common_count: (c.common_count + 1) as u64,
            ..c
        },
        CardRarityInstruction::AscendantSeal => CounterView {
            mastery_count: (c.mastery_count + 1) as u64,
            ..c
        },
        CardRarityInstruction::CodexOfInsight => CounterView {
            codex_count: (c.codex_count + 1) as u64,
            ..c
        },
    }
}

/// What `decide` returns: the decided tier and the counter after the award,
/// or `CounterOverflow` exactly when the award cannot be tallied.
pub open spec fn spec_decide(
    c: CounterView,
    holder: Seq<u8>,
    is_first_chain_occurrence: bool,
    path: MintPath,
) -> Result<(CardRarityInstruction, CounterView), CardError> {
    let tier = decided_tier(c, path, is_first_chain_occurrence);
    if increment_overflows(c, tier) {
        Err(CardError::CounterOverflow)
    } else {
        Ok((tier, counter_after(c, tier, holder)))
    }
}

/// Decides the rarity tier and the counter's next value from the current
/// counter state and the discovery flags. Pure: no storage is touched, so a
/// rejected award leaves every tally exactly as it was.
pub fn decide(
    counter: &PlantCounter,
    holder: &Address,
    is_first_chain_occurrence: bool,
    path: MintPath,
) -> (r: Result<(CardRarityInstruction, PlantCounter), CardError>)
    ensures
        match r {
            Ok(p) => spec_decide(counter@, holder@, is_first_chain_occurrence, path) == Ok::<
                (CardRarityInstruction, CounterView),
                CardError,
            >((p.0, p.1@)),
            Err(e) => spec_decide(counter@, holder@, is_first_chain_occurrence, path) == Err::<
                (CardRarityInstruction, CounterView),
                CardError,
            >(e),
        },
{
    let tier = match path {
        MintPath::Regular { is_new_subject } => {
            if is_new_subject && is_first_chain_occurrence && counter.seed_count == 0 {
                CardRarityInstruction::AuroraSeed
            } else if !is_new_subject && is_first_chain_occurrence && counter.relic_count == 0 {
                CardRarityInstruction::PrimordialRelic
            } else if counter.epic_count < MAX_EPIC_BEFORE_RARE {
                CardRarityInstruction::MythicCrest
            } else if counter.rare_count < MAX_RARE_BEFORE_COMMON {
                CardRarityInstruction::AstralShard
            } else {
                CardRarityInstruction::GenesisFragment
            }
        },
        MintPath::Quiz { quiz_winner } => {
            if quiz_winner {
                CardRarityInstruction::AscendantSeal
            } else {
                CardRarityInstruction::CodexOfInsight
            }
        },
    };
    let mut next = counter.clone();
    match tier {
        CardRarityInstruction::AuroraSeed => {
            let seed = match next.seed_count.checked_add(1) {
                Some(v) => v,
                None => {
                    return Err(CardError::CounterOverflow);
                },
            };
            let epic = match next.epic_count.checked_add(1) {
                Some(v) => v,
                None => {
                    return Err(CardError::CounterOverflow);
                },
            };
            next.seed_count = seed;
            next.epic_count = epic;
            next.first_minter = Some(holder.clone());
        },
        CardRarityInstruction::PrimordialRelic => {
            let relic = match next.relic_count.checked_add(1) {
                Some(v) => v,
                None => {
                    return Err(CardError::CounterOverflow);
                },
            };
            let epic = match next.epic_count.checked_add(1) {
                Some(v) => v,
                None => {
                    return Err(CardError::CounterOverflow);
                },
            };
            next.relic_count = relic;
            next.epic_count = epic;
            next.first_minter = Some(holder.clone());
        },
        CardRarityInstruction::MythicCrest => {
            next.epic_count = match next.epic_count.checked_add(1) {
                Some(v) => v,
                None => {
                    return Err(CardError::CounterOverflow);
                },
            };
        },
        CardRarityInstruction::AstralShard => {
            next.rare_count = match next.rare_count.checked_add(1) {
                Some(v) => v,
                None => {
                    return Err(CardError::CounterOverflow);
                },
            };
        },
        CardRarityInstruction::GenesisFragment => {
            next.common_count = match next.common_count.checked_add(1) {
                Some(v) => v,
                None => {
                    return Err(CardError::CounterOverflow);
                },
            };
        },
        CardRarityInstruction::AscendantSeal => {
            next.mastery_count = match next.mastery_count.checked_add(1) {
                Some(v) => v,
                None => {
                    return Err(CardError::CounterOverflow);
                },
            };
        },
        CardRarityInstruction::CodexOfInsight => {
            next.codex_count = match next.codex_count.checked_add(1) {
                Some(v) => v,
                None => {
                    return Err(CardError::CounterOverflow);
                },
            };
        },
    }
    proof {
        assert(next@ =~= counter_after(
            counter@,
            decided_tier(counter@, path, is_first_chain_occurrence),
            holder@,
        ));
    }
    Ok((tier, next))
}

/// Law: the scarcity cascade awards Epic only while `epic_count` is under
/// its cap of 20, so a cascade-assigned epic tally never passes 20; Rare is
/// awarded only once the epic slots are gone and while `rare_count` is
/// under its cap of 50; Common only once both are gone.
pub proof fn lemma_scarcity_bound(c: CounterView, is_new_subject: bool, first: bool, holder: Seq<
    u8,
>)
    ensures
        regular_tier(c, is_new_subject, first) == CardRarityInstruction::MythicCrest ==> c.epic_count
            < MAX_EPIC_BEFORE_RARE && counter_after(
            c,
            CardRarityInstruction::MythicCrest,
            holder,
        ).epic_count <= MAX_EPIC_BEFORE_RARE,
        regular_tier(c, is_new_subject, first) == CardRarityInstruction::AstralShard ==> c.epic_count
            >= MAX_EPIC_BEFORE_RARE && c.rare_count < MAX_RARE_BEFORE_COMMON && counter_after(
            c,
            CardRarityInstruction::AstralShard,
            holder,
        ).rare_count <= MAX_RARE_BEFORE_COMMON,
        regular_tier(c, is_new_subject, first) == CardRarityInstruction::GenesisFragment
            ==> c.epic_count >= MAX_EPIC_BEFORE_RARE && c.rare_count >= MAX_RARE_BEFORE_COMMON,
{
}

/// Law: on a zero-valued counter, the first regular-path issuance for a new
/// subject yields the first-new-species tier, and for a known subject the
/// first-known-sighting tier; either way it records the holder as the
/// subject's first minter and takes the first epic slot.
pub proof fn lemma_first_discovery(plant_name: Seq<u8>, holder: Seq<u8>, is_new_subject: bool)
    ensures
        ({
            let r = spec_decide(
                fresh_counter(plant_name),
                holder,
                true,
                MintPath::Regular { is_new_subject },
            );
            &&& is_new_subject ==> (r matches Ok(p) && p.0 == CardRarityInstruction::AuroraSeed)
            &&& !is_new_subject ==> (r matches Ok(p)
                && p.0 == CardRarityInstruction::PrimordialRelic)
            &&& r matches Ok(p) && p.1.first_minter == Some(holder) && p.1.epic_count == 1
        }),
{
}

/// Law: every tally is monotonic; an award never decreases any counter
/// field, never unsets the first minter, and never touches the name. A
/// chain-first issuance reaches the engine only with a counter that has no
/// minter recorded yet, which the store guarantees.
pub proof fn lemma_counts_monotonic(
    c: CounterView,
    holder: Seq<u8>,
    first: bool,
    path: MintPath,
)
    requires
        first ==> c.first_minter is None,
    ensures
        spec_decide(c, holder, first, path) matches Ok(p) ==> {
            let n = p.1;
            &&& n.seed_count >= c.seed_count
            &&& n.relic_count >= c.relic_count
            &&& n.epic_count >= c.epic_count
            &&& n.rare_count >= c.rare_count
            &&& n.common_count >= c.common_count
            &&& n.mastery_count >= c.mastery_count
            &&& n.codex_count >= c.codex_count
            &&& n.plant_name == c.plant_name
            &&& c.first_minter matches Some(h) ==> n.first_minter == Some(h)
        },
{
}

/// Law: the engine fails with `CounterOverflow`, and decides nothing, on
/// exactly the counters whose award would overflow a tally at the top of
/// its range.
pub proof fn lemma_overflow_guard(c: CounterView, holder: Seq<u8>, first: bool, path: MintPath)
    ensures
        spec_decide(c, holder, first, path) == Err::<
            (CardRarityInstruction, CounterView),
            CardError,
        >(CardError::CounterOverflow) <==> increment_overflows(
            c,
            decided_tier(c, path, first),
        ),
{
}

} // verus!

