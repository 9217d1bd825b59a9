//! The rarity engine and the storage codecs, driven through concrete
//! issuance scenarios.

use biodex::codec::{
    decode_counter, decode_record, encode_counter, encode_record, COUNTER_MAX_SPACE,
    RECORD_MAX_SPACE,
};
use biodex::derive::Address;
use biodex::engine::{decide, MintPath, PlantCounter};
use biodex::error::CardError;
use biodex::instruction::{CardRarityInstruction, OwnershipRecord};

fn addr(byte: u8) -> Address {
    Address {
        bytes: vec![byte; 32],
    }
}

fn name(s: &str) -> Vec<u8> {
    s.as_bytes().to_vec()
}

/// Runs one decision and replaces the counter with the updated one.
fn mint(
    counter: &mut PlantCounter,
    holder: &Address,
    first: bool,
    path: MintPath,
) -> CardRarityInstruction {
    let (tier, next) = decide(counter, holder, first, path).expect("decide");
    *counter = next;
    tier
}

#[test]
fn test_sunflower_regular_cascade() {
    let regular = MintPath::Regular {
        is_new_subject: false,
    };
    let mut counter = PlantCounter::new_fresh(name("Sunflower"));
    let holder1 = addr(1);

    // Mint 1: the first known sighting, taking the first epic slot.
    let tier = mint(&mut counter, &holder1, true, regular);
    assert_eq!(tier, CardRarityInstruction::PrimordialRelic);
    assert_eq!(counter.epic_count, 1);
    assert_eq!(counter.relic_count, 1);
    assert_eq!(counter.first_minter.as_ref().unwrap().bytes, holder1.bytes);

    // Mints 2 through 6: the regular distribution hands out epics.
    for i in 2..=6u8 {
        let tier = mint(&mut counter, &addr(i), false, regular);
        assert_eq!(tier, CardRarityInstruction::MythicCrest);
    }
    assert_eq!(counter.epic_count, 6);

    // The epic budget runs to 20 in total, then rares begin.
    while counter.epic_count < 20 {
        let tier = mint(&mut counter, &addr(200), false, regular);
        assert_eq!(tier, CardRarityInstruction::MythicCrest);
    }
    let tier = mint(&mut counter, &addr(201), false, regular);
    assert_eq!(tier, CardRarityInstruction::AstralShard);
    assert_eq!(counter.epic_count, 20);
    assert_eq!(counter.rare_count, 1);

    // The rare budget runs to 50, then commons begin.
    while counter.rare_count < 50 {
        let tier = mint(&mut counter, &addr(202), false, regular);
        assert_eq!(tier, CardRarityInstruction::AstralShard);
    }
    let tier = mint(&mut counter, &addr(203), false, regular);
    assert_eq!(tier, CardRarityInstruction::GenesisFragment);
    assert_eq!(counter.rare_count, 50);
    assert_eq!(counter.common_count, 1);

    // The first minter never changed after the first award.
    assert_eq!(counter.first_minter.as_ref().unwrap().bytes, holder1.bytes);
}

#[test]
fn test_first_discovery_new_species() {
    let mut counter = PlantCounter::new_fresh(name("NewSpecies"));
    let holder = addr(9);
    let tier = mint(
        &mut counter,
        &holder,
        true,
        MintPath::Regular {
            is_new_subject: true,
        },
    );
    assert_eq!(tier, CardRarityInstruction::AuroraSeed);
    assert_eq!(counter.seed_count, 1);
    assert_eq!(counter.epic_count, 1);
    assert_eq!(counter.first_minter.as_ref().unwrap().bytes, holder.bytes);
}

#[test]
fn test_quiz_paths() {
    let mut counter = PlantCounter::new_fresh(name("Orange"));
    let tier = mint(&mut counter, &addr(3), true, MintPath::Quiz { quiz_winner: true });
    assert_eq!(tier, CardRarityInstruction::AscendantSeal);
    assert_eq!(counter.mastery_count, 1);
    // The quiz path never records a first minter.
    assert!(counter.first_minter.is_none());

    let tier = mint(
        &mut counter,
        &addr(4),
        false,
        MintPath::Quiz { quiz_winner: false },
    );
    assert_eq!(tier, CardRarityInstruction::CodexOfInsight);
    assert_eq!(counter.codex_count, 1);
}

#[test]
fn test_decide_overflow_guard() {
    // Every scarcer slot is exhausted and the common tally sits at the top
    // of its range: the next common award must fail, not wrap.
    let mut counter = PlantCounter::new_fresh(name("Tulip"));
    counter.epic_count = 20;
    counter.rare_count = 50;
    counter.common_count = u64::MAX;
    let r = decide(
        &counter,
        &addr(1),
        false,
        MintPath::Regular {
            is_new_subject: false,
        },
    );
    assert_eq!(r.err(), Some(CardError::CounterOverflow));
    // The refused award changed nothing.
    assert_eq!(counter.common_count, u64::MAX);
    assert_eq!(counter.epic_count, 20);
    assert_eq!(counter.rare_count, 50);

    // A first-discovery award takes an epic slot too, so it is refused
    // when that tally cannot move.
    let mut counter = PlantCounter::new_fresh(name("Tulip"));
    counter.epic_count = u64::MAX;
    let r = decide(
        &counter,
        &addr(1),
        true,
        MintPath::Regular {
            is_new_subject: false,
        },
    );
    assert_eq!(r.err(), Some(CardError::CounterOverflow));

    let mut counter = PlantCounter::new_fresh(name("Tulip"));
    counter.mastery_count = u64::MAX;
    let r = decide(&counter, &addr(1), false, MintPath::Quiz { quiz_winner: true });
    assert_eq!(r.err(), Some(CardError::CounterOverflow));
}

#[test]
fn test_counter_codec_round_trip() {
    let mut counter = PlantCounter::new_fresh(name("Rose"));
    counter.seed_count = 1;
    counter.relic_count = 2;
    counter.epic_count = 3;
    counter.rare_count = 4;
    counter.common_count = 5;
    counter.mastery_count = 6;
    counter.codex_count = 7;
    counter.first_minter = Some(addr(0xAB));

    let bytes = encode_counter(&counter);
    assert!(bytes.len() <= COUNTER_MAX_SPACE);

    // The allocation is pre-sized; decoding ignores the trailing padding.
    let mut padded = bytes.clone();
    padded.resize(COUNTER_MAX_SPACE, 0);
    let back = decode_counter(&padded).expect("decode");
    assert_eq!(back.plant_name, name("Rose"));
    assert_eq!(back.seed_count, 1);
    assert_eq!(back.relic_count, 2);
    assert_eq!(back.epic_count, 3);
    assert_eq!(back.rare_count, 4);
    assert_eq!(back.common_count, 5);
    assert_eq!(back.mastery_count, 6);
    assert_eq!(back.codex_count, 7);
    assert_eq!(back.first_minter.unwrap().bytes, vec![0xAB; 32]);

    // A counter with no minter yet round-trips too, and its encoding is
    // strictly smaller: the pre-sizing is what makes the later growth safe.
    let fresh = PlantCounter::new_fresh(name("Rose"));
    let fresh_bytes = encode_counter(&fresh);
    assert!(fresh_bytes.len() < bytes.len());
    let back = decode_counter(&fresh_bytes).expect("decode");
    assert!(back.first_minter.is_none());
}

#[test]
fn test_counter_codec_exact_bytes() {
    let counter = PlantCounter::new_fresh(vec![0x41]);
    let bytes = encode_counter(&counter);
    let mut expected = vec![1, 0, 0, 0, 0x41];
    expected.extend_from_slice(&[0u8; 56]);
    expected.push(0);
    assert_eq!(bytes, expected);
}

#[test]
fn test_counter_codec_rejects_corrupt_state() {
    assert!(decode_counter(&vec![1, 2]).is_err());
    // A name length over the cap is refused.
    let bad = vec![51, 0, 0, 0];
    assert_eq!(decode_counter(&bad).err(), Some(CardError::CorruptState));
    // A minter tag that is neither 0 nor 1 is refused.
    let counter = PlantCounter::new_fresh(vec![0x41]);
    let mut bytes = encode_counter(&counter);
    let at = bytes.len() - 1;
    bytes[at] = 7;
    assert_eq!(decode_counter(&bytes).err(), Some(CardError::CorruptState));
}

#[test]
fn test_record_codec_round_trip() {
    let record = OwnershipRecord {
        holder: addr(0x11),
        subject_name: name("Lily"),
        rarity: CardRarityInstruction::AstralShard,
        asset_pool_ref: addr(0x22),
    };
    let bytes = encode_record(&record);
    assert!(bytes.len() <= RECORD_MAX_SPACE);
    let mut padded = bytes.clone();
    padded.resize(RECORD_MAX_SPACE, 0);
    let back = decode_record(&padded).expect("decode");
    assert_eq!(back.holder.bytes, vec![0x11; 32]);
    assert_eq!(back.subject_name, name("Lily"));
    assert_eq!(back.rarity, CardRarityInstruction::AstralShard);
    assert_eq!(back.asset_pool_ref.bytes, vec![0x22; 32]);

    // An unknown rarity tag is refused.
    let mut bad = bytes.clone();
    bad[32 + 4 + 4] = 200;
    assert_eq!(decode_record(&bad).err(), Some(CardError::CorruptState));
}

#[test]
fn test_rarity_tags() {
    let tiers = [
        (CardRarityInstruction::GenesisFragment, 0u8),
        (CardRarityInstruction::AstralShard, 1),
        (CardRarityInstruction::MythicCrest, 2),
        (CardRarityInstruction::AscendantSeal, 3),
        (CardRarityInstruction::CodexOfInsight, 4),
        (CardRarityInstruction::PrimordialRelic, 5),
        (CardRarityInstruction::AuroraSeed, 6),
    ];
    for (tier, tag) in tiers {
        assert_eq!(tier.tag(), tag);
        assert_eq!(CardRarityInstruction::from_tag(tag), Some(tier));
    }
    assert_eq!(CardRarityInstruction::from_tag(7), None);
}
