//! The issuance orchestrator: one strictly ordered pass from the request
//! and the host-supplied account facts to the plan of writes the host must
//! commit, or the error that aborts the whole invocation.
//!
//! The pass is pure. Nothing is written here, so a rejected invocation
//! trivially leaves every counter and record exactly as it was; the host
//! commits the returned plan atomically or not at all.

use vstd::prelude::*;

use crate::codec::spec_encode_counter;
use crate::codec::spec_encode_record;
use crate::codec::COUNTER_MAX_SPACE;
use crate::codec::RECORD_MAX_SPACE;
use crate::derive::address_eq;
use crate::derive::derive_canonical;
use crate::derive::Address;
use crate::engine::decide;
use crate::engine::spec_decide;
use crate::engine::MintPath;
use crate::error::CardError;
use crate::instruction::CardRarityInstruction;
use crate::instruction::OwnershipRecord;
use crate::instruction::RecordView;
use crate::instruction::MAX_SUBJECT_LEN;
use crate::ledger::counter_address;
use crate::ledger::counter_seed_vecs;
use crate::ledger::load_or_init;
use crate::ledger::ownership_address;
use crate::ledger::ownership_seed_vecs;
use crate::ledger::persist_counter;
use crate::ledger::spec_load_or_init;

verus! {

/// One issuance request, as the command envelope carries it. Exactly one
/// of the two optional flags must be supplied: `is_new_species` selects the
/// regular domain, `quiz_winner` the quiz domain.
#[derive(Debug)]
pub struct IssueRequest {
    /// The tier whose record slot the caller reserved accounts for.
    pub card_type: CardRarityInstruction,
    pub plant_name: Vec<u8>,
    pub is_new_species: Option<bool>,
    pub quiz_winner: Option<bool>,
}

/// The asset-pool reference backing each tier.
#[derive(Debug)]
pub struct TierPools {
    pub common: Address,
    pub rare: Address,
    pub epic: Address,
    pub mastery: Address,
    pub codex: Address,
    pub relic: Address,
    pub seed: Address,
}

impl TierPools {
    /// Every pool reference is an address.
    pub open spec fn wf(&self) -> bool {
        &&& self.common@.len() == 32
        &&& self.rare@.len() == 32
        &&& self.epic@.len() == 32
        &&& self.mastery@.len() == 32
        &&& self.codex@.len() == 32
        &&& self.relic@.len() == 32
        &&& self.seed@.len() == 32
    }

    /// The pool one unit is issued from for each tier.
    pub open spec fn spec_pool_for(&self, tier: CardRarityInstruction) -> Seq<u8> {
        match tier {
            CardRarityInstruction::GenesisFragment => self.common@,
            CardRarityInstruction::AstralShard => self.rare@,
            CardRarityInstruction::MythicCrest => self.epic@,
            CardRarityInstruction::AscendantSeal => self.mastery@,
            CardRarityInstruction::CodexOfInsight => self.codex@,
            CardRarityInstruction::PrimordialRelic => self.relic@,
            CardRarityInstruction::AuroraSeed => self.seed@,
        }
    }

    pub fn pool_for(&self, tier: CardRarityInstruction) -> (a: &Address)
        ensures
            a@ == self.spec_pool_for(tier),
    {
        match tier {
            CardRarityInstruction::GenesisFragment => &self.common,
            CardRarityInstruction::AstralShard => &self.rare,
            CardRarityInstruction::MythicCrest => &self.epic,
            CardRarityInstruction::AscendantSeal => &self.mastery,
            CardRarityInstruction::CodexOfInsight => &self.codex,
            CardRarityInstruction::PrimordialRelic => &self.relic,
            CardRarityInstruction::AuroraSeed => &self.seed,
        }
    }
}

/// What the host found in the accounts the caller supplied, as plain
/// values: the addresses, the funding at the record and receiving slots,
/// and the counter allocation's bytes where one exists.
#[derive(Debug)]
pub struct IssueAccounts {
    pub program_id: Address,
    pub holder: Address,
    /// The caller-supplied ownership-record account.
    pub ownership_account: Address,
    /// The funding at it; non-zero means a record already exists there.
    pub ownership_lamports: u64,
    /// The caller-supplied subject-counter account.
    pub counter_account: Address,
    /// The counter allocation's bytes, where one exists.
    pub counter_data: Option<Vec<u8>>,
    /// The funding at the holder's receiving account; zero means it must
    /// be created.
    pub receiving_lamports: u64,
    pub pools: TierPools,
}

impl IssueAccounts {
    pub open spec fn wf(&self) -> bool {
        &&& self.program_id.wf()
        &&& self.holder@.len() == 32
        &&& self.pools.wf()
    }

    /// The counter bytes as the ghost sees them.
    pub open spec fn spec_counter_data(&self) -> Option<Seq<u8>> {
        match self.counter_data {
            Some(b) => Some(b@),
            None => None,
        }
    }
}

/// The writes one successful issuance commits, and the two idempotent
/// host actions around them. The host performs all of it atomically.
#[derive(Debug)]
pub struct IssuancePlan {
    /// The decided tier.
    pub rarity: CardRarityInstruction,
    /// The pool to issue one unit from, into the holder's receiving account.
    pub asset_pool: Address,
    /// Whether the receiving account must be created first.
    pub create_receiving_account: bool,
    pub record_address: Address,
    /// The salt that, presented with the record seeds, authorizes the
    /// record allocation.
    pub record_salt: u8,
    pub record_bytes: Vec<u8>,
    pub record_space: usize,
    pub counter_address: Address,
    /// The salt that authorizes the counter allocation on first persist.
    pub counter_salt: u8,
    /// Whether this persist allocates the counter or overwrites it in place.
    pub counter_is_new: bool,
    pub counter_bytes: Vec<u8>,
    pub counter_space: usize,
}

/// The ghost shape of an issuance plan.
#[verifier::ext_equal]
pub ghost struct PlanView {
    pub rarity: CardRarityInstruction,
    pub asset_pool: Seq<u8>,
    pub create_receiving_account: bool,
    pub record_address: Seq<u8>,
    pub record_salt: u8,
    pub record_bytes: Seq<u8>,
    pub record_space: int,
    pub counter_address: Seq<u8>,
    pub counter_salt: u8,
    pub counter_is_new: bool,
    pub counter_bytes: Seq<u8>,
    pub counter_space: int,
}

impl View for IssuancePlan {
    type V = PlanView;

    open spec fn view(&self) -> PlanView {
        PlanView {
            rarity: self.rarity,
            asset_pool: self.asset_pool@,
            create_receiving_account: self.create_receiving_account,
            record_address: self.record_address@,
            record_salt: self.record_salt,
            record_bytes: self.record_bytes@,
            record_space: self.record_space as int,
            counter_address: self.counter_address@,
            counter_salt: self.counter_salt,
            counter_is_new: self.counter_is_new,
            counter_bytes: self.counter_bytes@,
            counter_space: self.counter_space as int,
        }
    }
}

/// Which decision domain the two optional flags select; supplying both or
/// neither is caller error.
pub open spec fn spec_request_path(is_new_species: Option<bool>, quiz_winner: Option<bool>) -> Result<
    MintPath,
    CardError,
> {
    match (is_new_species, quiz_winner) {
        (Some(n), None) => Ok(MintPath::Regular { is_new_subject: n }),
        (None, Some(q)) => Ok(MintPath::Quiz { quiz_winner: q }),
        _ => Err(CardError::MalformedInstruction),
    }
}

/// Resolves the decision domain from the envelope's two optional flags.
pub fn request_path(is_new_species: Option<bool>, quiz_winner: Option<bool>) -> (r: Result<
    MintPath,
    CardError,
>)
    ensures
        r == spec_request_path(is_new_species, quiz_winner),
{
    match (is_new_species, quiz_winner) {
        (Some(n), None) => Ok(MintPath::Regular { is_new_subject: n }),
        (None, Some(q)) => Ok(MintPath::Quiz { quiz_winner: q }),
        _ => Err(CardError::MalformedInstruction),
    }
}

/// The record one successful issuance freezes.
pub open spec fn spec_issued_record(
    req: IssueRequest,
    env: IssueAccounts,
    tier: CardRarityInstruction,
) -> RecordView {
    RecordView {
        holder: env.holder@,
        subject_name: req.plant_name@,
        rarity: tier,
        asset_pool_ref: env.pools.spec_pool_for(tier),
    }
}

/// The whole issuance pass: the strictly ordered steps of the state
/// machine, each error aborting the invocation at its step.
pub open spec fn spec_issue(req: IssueRequest, env: IssueAccounts) -> Result<
    PlanView,
    CardError,
> {
    match spec_request_path(req.is_new_species, req.quiz_winner) {
        Err(e) => Err(e),
        Ok(path) => match ownership_address(
            req.plant_name@,
            env.holder@,
            req.card_type,
            env.program_id@,
        ) {
            None => Err(CardError::DerivationExhausted),
            Some(own) => if own.0 != env.ownership_account@ {
                Err(CardError::InvalidArgument)
            } else {
                match counter_address(req.plant_name@, env.program_id@) {
                    None => Err(CardError::DerivationExhausted),
                    Some(ctr) => if ctr.0 != env.counter_account@ {
                        Err(CardError::InvalidArgument)
                    } else if env.ownership_lamports != 0 {
                        Err(CardError::AlreadyOwned)
                    } else {
                        match spec_load_or_init(req.plant_name@, env.spec_counter_data()) {
                            Err(e) => Err(e),
                            Ok(loaded) => match spec_decide(
                                loaded.0,
                                env.holder@,
                                loaded.1,
                                path,
                            ) {
                                Err(e) => Err(e),
                                Ok(decided) => if decided.0 != req.card_type {
                                    Err(CardError::InvalidArgument)
                                } else {
                                    Ok(
                                        PlanView {
                                            rarity: decided.0,
                                            asset_pool: env.pools.spec_pool_for(decided.0),
                                            create_receiving_account: env.receiving_lamports == 0,
                                            record_address: own.0,
                                            record_salt: own.1,
                                            record_bytes: spec_encode_record(
                                                spec_issued_record(req, env, decided.0),
                                            ),
                                            record_space: RECORD_MAX_SPACE as int,
                                            counter_address: ctr.0,
                                            counter_salt: ctr.1,
                                            counter_is_new: loaded.1,
                                            counter_bytes: spec_encode_counter(decided.1),
                                            counter_space: COUNTER_MAX_SPACE as int,
                                        },
                                    )
                                },
                            },
                        }
                    },
                }
            },
        },
    }
}

/// The program's instruction surface.
pub struct Processor {}

impl Processor {
    fn process_genesis_fragment() -> (r: Result<(), CardError>)
        ensures
            r is Ok,
    {
        Ok(())
    }

    fn process_astral_shard() -> (r: Result<(), CardError>)
        ensures
            r is Ok,
    {
        Ok(())
    }

    fn process_mythic_crest() -> (r: Result<(), CardError>)
        ensures
            r is Ok,
    {
        Ok(())
    }

    fn process_ascendant_seal() -> (r: Result<(), CardError>)
        ensures
            r is Ok,
    {
        Ok(())
    }

    fn process_code_of_insight() -> (r: Result<(), CardError>)
        ensures
            r is Ok,
    {
        Ok(())
    }

    fn process_primordial_relic() -> (r: Result<(), CardError>)
        ensures
            r is Ok,
    {
        Ok(())
    }

    fn process_aurora_seed() -> (r: Result<(), CardError>)
        ensures
            r is Ok,
    {
        Ok(())
    }

    /// Decodes a one-byte rarity command and dispatches it; fails with
    /// `MalformedInstruction` on anything but a single valid tier tag.
    pub fn process(instruction_data: &Vec<u8>) -> (r: Result<(), CardError>)
        ensures
            r is Ok <==> instruction_data@.len() == 1
                && CardRarityInstruction::spec_from_tag(instruction_data@[0]) is Some,
            r is Err ==> r == Err::<(), CardError>(CardError::MalformedInstruction),
    {
        if instruction_data.len() != 1 {
            return Err(CardError::MalformedInstruction);
        }
        let instruction = match CardRarityInstruction::from_tag(instruction_data[0]) {
            Some(i) => i,
            None => {
                return Err(CardError::MalformedInstruction);
            },
        };
        match instruction {
            CardRarityInstruction::GenesisFragment => Self::process_genesis_fragment(),
            CardRarityInstruction::AstralShard => Self::process_astral_shard(),
            CardRarityInstruction::MythicCrest => Self::process_mythic_crest(),
            CardRarityInstruction::AscendantSeal => Self::process_ascendant_seal(),
            CardRarityInstruction::CodexOfInsight => Self::process_code_of_insight(),
            CardRarityInstruction::PrimordialRelic => Self::process_primordial_relic(),
            CardRarityInstruction::AuroraSeed => Self::process_aurora_seed(),
        }
    }

    /// The issuance state machine, strictly ordered, nothing retried:
    /// resolve the decision domain, validate every supplied account against
    /// its derived address, check the ownership slot is unused before any
    /// counter work, load or initialize the counter, decide the rarity, and
    /// plan the writes. Any failure aborts the whole invocation with
    /// nothing written.
    pub fn process_minting(req: &IssueRequest, env: &IssueAccounts) -> (r: Result<
        IssuancePlan,
        CardError,
    >)
        requires
            env.wf(),
            req.plant_name@.len() <= MAX_SUBJECT_LEN,
        ensures
            match r {
                Ok(plan) => spec_issue(*req, *env) == Ok::<PlanView, CardError>(plan@),
                Err(e) => spec_issue(*req, *env) == Err::<PlanView, CardError>(e),
            },
    {
        let path = match request_path(req.is_new_species, req.quiz_winner) {
            Ok(p) => p,
            Err(e) => {
                return Err(e);
            },
        };
        let own_seeds = ownership_seed_vecs(&req.plant_name, &env.holder, req.card_type);
        let (own_addr, own_salt) = match derive_canonical(&own_seeds, &env.program_id) {
            Ok(p) => p,
            Err(e) => {
                return Err(e);
            },
        };
        if !address_eq(&own_addr, &env.ownership_account) {
            return Err(CardError::InvalidArgument);
        }
        let ctr_seeds = counter_seed_vecs(&req.plant_name);
        let (ctr_addr, ctr_salt) = match derive_canonical(&ctr_seeds, &env.program_id) {
            Ok(p) => p,
            Err(e) => {
                return Err(e);
            },
        };
        if !address_eq(&ctr_addr, &env.counter_account) {
            return Err(CardError::InvalidArgument);
        }
        if env.ownership_lamports != 0 {
            return Err(CardError::AlreadyOwned);
        }
        let (counter, is_first) = match load_or_init(&req.plant_name, env.counter_data.as_ref()) {
            Ok(p) => p,
            Err(e) => {
                return Err(e);
            },
        };
        let (tier, next_counter) = match decide(&counter, &env.holder, is_first, path) {
            Ok(p) => p,
            Err(e) => {
                return Err(e);
            },
        };
        if tier != req.card_type {
            return Err(CardError::InvalidArgument);
        }
        let pool = env.pools.pool_for(tier);
        let record = OwnershipRecord {
            holder: env.holder.clone(),
            subject_name: {
                let s = req.plant_name.clone();
                proof {
                    assert(s@ =~= req.plant_name@);
                }
                s
            },
            rarity: tier,
            asset_pool_ref: pool.clone(),
        };
        proof {
            assert(record@ =~= spec_issued_record(*req, *env, tier));
        }
        let (record_bytes, record_space) = crate::ledger::commit_record(&record);
        let (counter_bytes, counter_space) = persist_counter(&next_counter);
        let plan = IssuancePlan {
            rarity: tier,
            asset_pool: pool.clone(),
            create_receiving_account: env.receiving_lamports == 0,
            record_address: own_addr,
            record_salt: own_salt,
            record_bytes,
            record_space,
            counter_address: ctr_addr,
            counter_salt: ctr_salt,
            counter_is_new: is_first,
            counter_bytes,
            counter_space,
        };
        proof {
            assert(spec_issue(*req, *env) matches Ok(p) && p =~= plan@);
        }
        Ok(plan)
    }
}

/// Law: a second issuance for a triple whose record slot is already funded
/// fails with `AlreadyOwned`, whatever else the request says — and, the
/// pass being pure, no counter moves.
pub proof fn lemma_duplicate_rejected(req: IssueRequest, env: IssueAccounts)
    requires
        env.ownership_lamports != 0,
        spec_request_path(req.is_new_species, req.quiz_winner) is Ok,
        ownership_address(req.plant_name@, env.holder@, req.card_type, env.program_id@)
            matches Some(own) && own.0 == env.ownership_account@,
        counter_address(req.plant_name@, env.program_id@) matches Some(ctr) && ctr.0
            == env.counter_account@,
    ensures
        spec_issue(req, env) == Err::<PlanView, CardError>(CardError::AlreadyOwned),
{
}

} // verus!
