//! Canonical address derivation held against the ledger host's own
//! derivation, the dedup ledger, and the full issuance pass.

use std::collections::HashMap;

use biodex::derive::{address_eq, derive_canonical, Address};
use biodex::error::CardError;
use biodex::instruction::CardRarityInstruction;
use biodex::ledger::{counter_namespace_bytes, ownership_seed_vecs, reserve};
use biodex::processor::{IssueAccounts, IssueRequest, Processor, TierPools};
use solana_program::pubkey::Pubkey;

fn addr(byte: u8) -> Address {
    Address {
        bytes: vec![byte; 32],
    }
}

fn name(s: &str) -> Vec<u8> {
    s.as_bytes().to_vec()
}

fn pools() -> TierPools {
    TierPools {
        common: addr(0xC0),
        rare: addr(0xC1),
        epic: addr(0xC2),
        mastery: addr(0xC3),
        codex: addr(0xC4),
        relic: addr(0xC5),
        seed: addr(0xC6),
    }
}

/// The canonical derivation agrees with the host's own bounded salt
/// search, address and salt both.
#[test]
fn test_derivation_matches_host() {
    let program_id = addr(7);
    let program_pk = Pubkey::new_from_array([7; 32]);

    let seed_sets: Vec<Vec<Vec<u8>>> = vec![
        vec![counter_namespace_bytes(), name("Rose")],
        vec![name("Sunflower"), vec![1; 32], vec![5]],
        vec![name("Orchid")],
    ];
    for seeds in seed_sets {
        let (derived, salt) = derive_canonical(&seeds, &program_id).expect("derive");
        let refs: Vec<&[u8]> = seeds.iter().map(|s| s.as_slice()).collect();
        let (expected, bump) =
            Pubkey::try_find_program_address(&refs, &program_pk).expect("find");
        assert_eq!(derived.bytes, expected.to_bytes().to_vec());
        assert_eq!(salt, bump);
    }
}

/// A seed over the host's per-seed length cap admits no salt at all, so
/// the bounded search reports exhaustion instead of looping.
#[test]
fn test_derivation_exhausted_on_oversized_seed() {
    let program_id = addr(7);
    let seeds = vec![vec![9u8; 40]];
    assert_eq!(
        derive_canonical(&seeds, &program_id).err(),
        Some(CardError::DerivationExhausted)
    );
}

#[test]
fn test_reserve_accepts_then_rejects_duplicate() {
    let program_id = addr(7);
    let holder = addr(1);
    let subject = name("Orchid");
    let rarity = CardRarityInstruction::PrimordialRelic;

    let seeds = ownership_seed_vecs(&subject, &holder, rarity);
    let (slot, _salt) = derive_canonical(&seeds, &program_id).expect("derive");

    // An unfunded slot is reserved.
    let (granted, _) = reserve(&subject, &holder, rarity, &slot, 0, &program_id).expect("reserve");
    assert!(address_eq(&granted, &slot));

    // A funded slot means the record exists: the same triple is refused.
    assert_eq!(
        reserve(&subject, &holder, rarity, &slot, 1_000_000_000, &program_id).err(),
        Some(CardError::AlreadyOwned)
    );

    // A caller-supplied account that is not the canonical slot is refused.
    let wrong = addr(0xEE);
    assert_eq!(
        reserve(&subject, &holder, rarity, &wrong, 0, &program_id).err(),
        Some(CardError::InvalidArgument)
    );
}

/// Drives one full issuance pass the way the host would.
fn issue(
    ledger: &mut HashMap<Vec<u8>, Vec<u8>>,
    counters: &mut HashMap<Vec<u8>, Vec<u8>>,
    holder: &Address,
    plant: &str,
    card_type: CardRarityInstruction,
    is_new_species: Option<bool>,
    quiz_winner: Option<bool>,
) -> Result<CardRarityInstruction, CardError> {
    let program_id = addr(7);
    let subject = name(plant);
    let own_seeds = ownership_seed_vecs(&subject, holder, card_type);
    let (own, _) = derive_canonical(&own_seeds, &program_id).expect("derive record slot");
    let ctr_seeds = vec![counter_namespace_bytes(), subject.clone()];
    let (ctr, _) = derive_canonical(&ctr_seeds, &program_id).expect("derive counter slot");

    let req = IssueRequest {
        card_type,
        plant_name: subject,
        is_new_species,
        quiz_winner,
    };
    let env = IssueAccounts {
        program_id,
        holder: holder.clone(),
        ownership_account: own.clone(),
        ownership_lamports: if ledger.contains_key(&own.bytes) { 1 } else { 0 },
        counter_account: ctr.clone(),
        counter_data: counters.get(&ctr.bytes).cloned(),
        receiving_lamports: 0,
        pools: pools(),
    };
    let plan = Processor::process_minting(&req, &env)?;

    // The host commits the plan atomically: the counter allocation is
    // pre-sized to its maximum shape, the record written once.
    let mut counter_cell = plan.counter_bytes.clone();
    counter_cell.resize(plan.counter_space, 0);
    counters.insert(plan.counter_address.bytes.clone(), counter_cell);
    assert!(!ledger.contains_key(&plan.record_address.bytes));
    ledger.insert(plan.record_address.bytes.clone(), plan.record_bytes.clone());
    Ok(plan.rarity)
}

#[test]
fn test_issuance_pass_and_duplicate_rejection() {
    let mut ledger = HashMap::new();
    let mut counters = HashMap::new();
    let collector = addr(1);

    // First mint of a known plant: the first known sighting.
    let tier = issue(
        &mut ledger,
        &mut counters,
        &collector,
        "Orchid",
        CardRarityInstruction::PrimordialRelic,
        Some(false),
        None,
    )
    .expect("first mint");
    assert_eq!(tier, CardRarityInstruction::PrimordialRelic);

    // The frozen record carries exactly the issued triple and the relic
    // pool's reference.
    let record_bytes = ledger.values().next().unwrap().clone();
    let record = biodex::codec::decode_record(&record_bytes).expect("record decodes");
    assert_eq!(record.holder.bytes, collector.bytes);
    assert_eq!(record.subject_name, name("Orchid"));
    assert_eq!(record.rarity, CardRarityInstruction::PrimordialRelic);
    assert_eq!(record.asset_pool_ref.bytes, pools().relic.bytes);

    // The identical request again: the slot is funded now, so the pass
    // stops with AlreadyOwned before any counter work.
    let counters_before = counters.clone();
    let r = issue(
        &mut ledger,
        &mut counters,
        &collector,
        "Orchid",
        CardRarityInstruction::PrimordialRelic,
        Some(false),
        None,
    );
    assert_eq!(r.err(), Some(CardError::AlreadyOwned));
    assert_eq!(counters, counters_before);
}

#[test]
fn test_issuance_rejects_wrong_expected_tier() {
    let mut ledger = HashMap::new();
    let mut counters = HashMap::new();
    // The caller reserved accounts for a common card, but the engine
    // decides the first known sighting: the supplied accounts do not
    // match the decided tier, so nothing is issued.
    let r = issue(
        &mut ledger,
        &mut counters,
        &addr(1),
        "Daisy",
        CardRarityInstruction::GenesisFragment,
        Some(false),
        None,
    );
    assert_eq!(r.err(), Some(CardError::InvalidArgument));
    assert!(ledger.is_empty());
    assert!(counters.is_empty());
}

#[test]
fn test_issuance_rejects_both_flags() {
    let mut ledger = HashMap::new();
    let mut counters = HashMap::new();
    let r = issue(
        &mut ledger,
        &mut counters,
        &addr(1),
        "Daisy",
        CardRarityInstruction::PrimordialRelic,
        Some(false),
        Some(false),
    );
    assert_eq!(r.err(), Some(CardError::MalformedInstruction));
    let r = issue(
        &mut ledger,
        &mut counters,
        &addr(1),
        "Daisy",
        CardRarityInstruction::PrimordialRelic,
        None,
        None,
    );
    assert_eq!(r.err(), Some(CardError::MalformedInstruction));
}

#[test]
fn test_user_collects_multiple_rarities_same_plant() {
    let mut ledger = HashMap::new();
    let mut counters = HashMap::new();
    let collector = addr(1);
    let regular = Some(false);

    // The collector takes the first known sighting of the plant.
    let tier = issue(
        &mut ledger,
        &mut counters,
        &collector,
        "Lily",
        CardRarityInstruction::PrimordialRelic,
        regular,
        None,
    )
    .expect("relic");
    assert_eq!(tier, CardRarityInstruction::PrimordialRelic);

    // Other holders drain the remaining 19 epic slots.
    for i in 0..19u8 {
        let tier = issue(
            &mut ledger,
            &mut counters,
            &addr(50 + i),
            "Lily",
            CardRarityInstruction::MythicCrest,
            regular,
            None,
        )
        .expect("epic");
        assert_eq!(tier, CardRarityInstruction::MythicCrest);
    }

    // The same collector now also takes a rare: a different rarity tag
    // derives a different record address, so both records coexist.
    let tier = issue(
        &mut ledger,
        &mut counters,
        &collector,
        "Lily",
        CardRarityInstruction::AstralShard,
        regular,
        None,
    )
    .expect("rare");
    assert_eq!(tier, CardRarityInstruction::AstralShard);

    // And a quiz card for the same plant on top.
    let tier = issue(
        &mut ledger,
        &mut counters,
        &collector,
        "Lily",
        CardRarityInstruction::AscendantSeal,
        None,
        Some(true),
    )
    .expect("mastery");
    assert_eq!(tier, CardRarityInstruction::AscendantSeal);

    // 1 relic + 19 epics + 1 rare + 1 mastery, each frozen at its own slot.
    assert_eq!(ledger.len(), 22);
}

#[test]
fn test_processor_dispatch() {
    assert!(Processor::process(&vec![2]).is_ok());
    assert!(Processor::process(&vec![6]).is_ok());
    assert_eq!(
        Processor::process(&vec![9]),
        Err(CardError::MalformedInstruction)
    );
    assert_eq!(
        Processor::process(&Vec::new()),
        Err(CardError::MalformedInstruction)
    );
    assert_eq!(
        Processor::process(&vec![2, 2]),
        Err(CardError::MalformedInstruction)
    );
}

#[test]
fn test_default_client_args() {
    let args = biodex::args::Args::default();
    assert_eq!(args.config, "Config.toml");
    assert_eq!(args.dotenv, ".env");
    assert_eq!(args.log_config, "log_config.yml");
}
