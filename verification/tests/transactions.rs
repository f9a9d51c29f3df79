use ore_hq_client::transactions::{
    elapsed_seconds, reward_status_text, tx_processor_result_checks, tx_processors_sigs_check,
    EventTxResult, HashStatus, ProofAccountResource, SigChecksTimer, TxProcessor, TxState, TxType,
};
use solana_sdk::signature::Signature;

const SECOND: u64 = 1_000_000_000;

fn chain(challenge: &str, stake: u64) -> ProofAccountResource {
    ProofAccountResource {
        challenge: challenge.to_string(),
        stake,
        last_hash_at: 0,
        total_hashes: 0,
    }
}

fn pending(tx_type: TxType, staked_balance: Option<u64>, created_at: u64) -> TxProcessor {
    TxProcessor::new(tx_type, staked_balance, "old".to_string(), None, created_at)
}

fn look(record: &TxProcessor, proof: &ProofAccountResource, now: u64) -> Option<EventTxResult> {
    record.resolve(record.signature_label(), proof, 6, now)
}

#[test]
fn transaction_names() {
    assert_eq!(TxType::Mine.to_string(), "Mine");
    assert_eq!(TxType::Register.to_string(), "Register");
    assert_eq!(TxType::ResetEpoch.to_string(), "Reset");
    assert_eq!(TxType::CreateAta.to_string(), "Create Ata");
    assert_eq!(TxType::Stake.to_string(), "Stake");
    assert_eq!(TxType::Claim.to_string(), "Claim");
    assert_eq!(TxType::Airdrop.to_string(), "Airdrop");
}

#[test]
fn state_names() {
    assert_eq!(TxState::Pending.to_string(), "PROCESSING");
    assert_eq!(TxState::Success.to_string(), "SUCCESS");
    assert_eq!(TxState::Failed.to_string(), "FAILED");
}

#[test]
fn new_record_is_pending() {
    let hash = HashStatus { hash_time: 12, hash_difficulty: 17 };
    let record = TxProcessor::new(TxType::Mine, Some(5), "c".to_string(), Some(hash), 99);
    assert_eq!(record.tx_type(), TxType::Mine);
    assert_eq!(record.status(), TxState::Pending);
    assert_eq!(record.error(), "");
    assert_eq!(record.staked_balance(), Some(5));
    assert_eq!(record.challenge(), "c");
    assert_eq!(record.signature(), None);
    assert_eq!(record.hash_status(), Some(hash));
    assert_eq!(record.created_at(), 99);
}

#[test]
fn elapsed_time_is_whole_seconds() {
    assert_eq!(elapsed_seconds(0, 0), 0);
    assert_eq!(elapsed_seconds(5, 5 + SECOND - 1), 0);
    assert_eq!(elapsed_seconds(5, 5 + SECOND), 1);
    assert_eq!(elapsed_seconds(0, 80 * SECOND), 80);
    assert_eq!(elapsed_seconds(10, 3), 0);
    assert_eq!(elapsed_seconds(0, u64::MAX), 18_446_744_073);
}

#[test]
fn pending_record_expires_at_eighty_seconds() {
    let created_at = 7 * SECOND;
    let record = pending(TxType::Stake, None, created_at);
    let proof = chain("old", 0);
    assert_eq!(look(&record, &proof, created_at + 79 * SECOND), None);
    assert_eq!(look(&record, &proof, created_at + 80 * SECOND - 1), None);
    let event = look(&record, &proof, created_at + 80 * SECOND).unwrap();
    assert_eq!(event.tx_type, "Stake");
    assert_eq!(event.sig, "FAILED");
    assert_eq!(event.tx_time, 80);
    assert_eq!(event.hash_status, None);
    assert_eq!(event.tx_status.status, "PROCESSING");
    assert_eq!(event.tx_status.error, "Expired: ");
}

#[test]
fn pending_record_waits_before_its_clock_started() {
    let record = pending(TxType::Claim, None, 100 * SECOND);
    assert_eq!(look(&record, &chain("x", 0), 0), None);
}

#[test]
fn expired_record_keeps_its_signature() {
    let mut record = pending(TxType::Mine, Some(1), 0);
    record.record_signature([0u8; 64]);
    let event = look(&record, &chain("new", 9), 200 * SECOND).unwrap();
    assert_eq!(event.sig, "1".repeat(64));
    assert_eq!(event.tx_time, 200);
    assert_eq!(event.tx_status.error, "Expired: ");
}

#[test]
fn reward_is_the_growth_of_the_stake() {
    assert_eq!(reward_status_text(1_000_000, 1_250_000, 6), "SUCCESS +0.25 ORE.");
    assert_eq!(reward_status_text(0, 3_000_000, 6), "SUCCESS +3 ORE.");
    assert_eq!(reward_status_text(7, 7, 6), "SUCCESS +0 ORE.");
    assert_eq!(reward_status_text(0, 1, 11), "SUCCESS +0.00000000001 ORE.");
    assert_eq!(reward_status_text(1_250_000, 1_000_000, 6), "SUCCESS +-0.25 ORE.");
    assert_eq!(
        reward_status_text(0, u64::MAX, 11),
        "SUCCESS +184467440.73709551615 ORE."
    );
}

#[test]
fn first_mine_is_reported_at_once() {
    let mut record = pending(TxType::Mine, None, 0);
    record.record_success();
    // The chain still shows the challenge of the moment of dispatch.
    let event = look(&record, &chain("old", 123), 3 * SECOND).unwrap();
    assert_eq!(event.tx_type, "Mine");
    assert_eq!(event.tx_time, 3);
    assert_eq!(event.tx_status.status, "SUCCESS");
    assert_eq!(event.tx_status.error, "");
}

#[test]
fn mine_with_stake_waits_for_the_next_challenge() {
    let hash = HashStatus { hash_time: 40, hash_difficulty: 21 };
    let mut record =
        TxProcessor::new(TxType::Mine, Some(1_000_000), "old".to_string(), Some(hash), 0);
    record.record_signature([0u8; 64]);
    record.record_success();
    assert_eq!(look(&record, &chain("old", 1_250_000), 5 * SECOND), None);
    // Success does not expire.
    assert_eq!(look(&record, &chain("old", 1_250_000), 500 * SECOND), None);
    let event = look(&record, &chain("new", 1_250_000), 6 * SECOND).unwrap();
    assert_eq!(event.tx_type, "Mine");
    assert_eq!(event.sig, "1".repeat(64));
    assert_eq!(event.tx_time, 6);
    assert_eq!(event.hash_status, Some(hash));
    assert_eq!(event.tx_status.status, "SUCCESS +0.25 ORE.");
    assert_eq!(event.tx_status.error, "");
}

#[test]
fn failed_mine_is_reported_at_once() {
    let mut record = pending(TxType::Mine, Some(10), 0);
    record.record_failure("blockhash not found".to_string());
    let event = look(&record, &chain("old", 10), SECOND).unwrap();
    assert_eq!(event.sig, "FAILED");
    assert_eq!(event.tx_status.status, "FAILED");
    assert_eq!(event.tx_status.error, "blockhash not found");
}

#[test]
fn other_transactions_are_reported_at_once() {
    for tx_type in [
        TxType::Airdrop,
        TxType::Register,
        TxType::ResetEpoch,
        TxType::Stake,
        TxType::Claim,
        TxType::CreateAta,
    ] {
        let mut confirmed = pending(tx_type, Some(1), 0);
        confirmed.record_success();
        let event = look(&confirmed, &chain("old", 2), 2 * SECOND).unwrap();
        assert_eq!(event.tx_type, tx_type.to_string());
        assert_eq!(event.sig, "FAILED");
        assert_eq!(event.tx_status.status, "SUCCESS");
        let mut rejected = pending(tx_type, None, 0);
        rejected.record_failure("no".to_string());
        let event = look(&rejected, &chain("old", 2), 2 * SECOND).unwrap();
        assert_eq!(event.tx_status.status, "FAILED");
        assert_eq!(event.tx_status.error, "no");
    }
}

#[test]
fn signature_is_shown_in_base_58() {
    let mut bytes = [0u8; 64];
    for (i, byte) in bytes.iter_mut().enumerate() {
        *byte = (i as u8).wrapping_mul(37).wrapping_add(1);
    }
    let mut record = pending(TxType::Airdrop, None, 0);
    record.record_signature(bytes);
    assert_eq!(record.signature(), Some(bytes));
    let label = record.signature_label();
    assert_eq!(label, Signature::from(bytes).to_string());
    assert_eq!(label.parse::<Signature>().unwrap(), Signature::from(bytes));
    assert!(label.len() >= 64 && label.len() <= 88);
    record.record_success();
    let event = look(&record, &chain("old", 0), 0).unwrap();
    assert_eq!(event.sig, label);
}

#[test]
fn signature_of_zeros() {
    let mut record = pending(TxType::Register, None, 0);
    assert_eq!(record.signature_label(), "FAILED");
    record.record_signature([0u8; 64]);
    assert_eq!(record.signature_label(), "1".repeat(64));
}

#[test]
fn resolved_record_is_not_changed_again() {
    let mut record = pending(TxType::Stake, None, 0);
    record.record_failure("first".to_string());
    record.record_success();
    record.record_failure("second".to_string());
    record.record_signature([9u8; 64]);
    assert_eq!(record.status(), TxState::Failed);
    assert_eq!(record.error(), "first");
    assert_eq!(record.signature(), None);

    let mut record = pending(TxType::Stake, None, 0);
    record.record_success();
    record.record_failure("late".to_string());
    assert_eq!(record.status(), TxState::Success);
    assert_eq!(record.error(), "");
}

#[test]
fn tick_parts_the_records_in_order() {
    let mut done = pending(TxType::Register, None, 0);
    done.record_success();
    let waiting = pending(TxType::Stake, None, 30 * SECOND);
    let expired = pending(TxType::Claim, None, 0);
    let mut gated = pending(TxType::Mine, Some(5), 0);
    gated.record_success();
    let mut failed = pending(TxType::Airdrop, None, 0);
    failed.record_failure("rate limit".to_string());

    let records = vec![done, waiting, expired, gated, failed];
    let (events, live) = tx_processor_result_checks(records, &chain("old", 5), 6, 90 * SECOND);
    let kinds: Vec<&str> = events.iter().map(|event| event.tx_type.as_str()).collect();
    assert_eq!(kinds, ["Register", "Claim", "Airdrop"]);
    assert_eq!(events[1].tx_status.error, "Expired: ");
    assert_eq!(events[2].tx_status.error, "rate limit");
    assert!(events.iter().all(|event| event.tx_time == 90));
    let kinds: Vec<TxType> = live.iter().map(|record| record.tx_type()).collect();
    assert_eq!(kinds, [TxType::Stake, TxType::Mine]);
}

#[test]
fn tick_over_nothing() {
    let (events, live) = tx_processor_result_checks(Vec::new(), &chain("c", 0), 6, 0);
    assert!(events.is_empty());
    assert!(live.is_empty());
}

#[test]
fn each_record_reports_exactly_once() {
    let mut mined = pending(TxType::Mine, Some(1_000_000), 0);
    mined.record_success();
    let mut live = vec![
        mined,
        pending(TxType::Stake, None, 0),
        pending(TxType::Claim, None, 50 * SECOND),
    ];
    let mut reported: Vec<String> = Vec::new();
    // The challenge changes at second 100.
    for second in 0..200u64 {
        let proof = if second < 100 { chain("old", 1_000_000) } else { chain("new", 1_500_000) };
        let before = live.len();
        let (events, rest) = tx_processor_result_checks(live, &proof, 6, second * SECOND);
        assert_eq!(events.len() + rest.len(), before);
        for event in events {
            reported.push(format!("{} at {}: {}", event.tx_type, second, event.tx_status.status));
        }
        live = rest;
    }
    assert!(live.is_empty());
    assert_eq!(
        reported,
        [
            "Stake at 80: PROCESSING",
            "Mine at 100: SUCCESS +0.5 ORE.",
            "Claim at 130: PROCESSING",
        ]
    );
}

#[test]
fn record_added_between_ticks_is_seen_by_the_next() {
    let (events, mut live) = tx_processor_result_checks(
        vec![pending(TxType::Stake, None, 0)],
        &chain("c", 0),
        6,
        SECOND,
    );
    assert!(events.is_empty());
    let mut late = pending(TxType::Claim, None, SECOND);
    late.record_success();
    live.push(late);
    let (events, live) = tx_processor_result_checks(live, &chain("c", 0), 6, 2 * SECOND);
    assert_eq!(events.len(), 1);
    assert_eq!(events[0].tx_type, "Claim");
    assert_eq!(events[0].tx_time, 1);
    assert_eq!(live.len(), 1);
}

#[test]
fn default_account_is_loading() {
    let account = ProofAccountResource::default();
    assert_eq!(account.challenge, "loading...");
    assert_eq!(account.stake, 0);
    assert_eq!(account.last_hash_at, 0);
    assert_eq!(account.total_hashes, 0);
}

#[test]
fn signatures_are_checked_once_per_second() {
    let mut timer = SigChecksTimer::default();
    assert!(!tx_processors_sigs_check(&mut timer, 400_000_000));
    assert!(!tx_processors_sigs_check(&mut timer, 599_999_999));
    assert!(tx_processors_sigs_check(&mut timer, 1));
    // The count starts again.
    assert!(!tx_processors_sigs_check(&mut timer, 999_999_999));
    assert!(tx_processors_sigs_check(&mut timer, 1));
    assert!(tx_processors_sigs_check(&mut timer, 5_000_000_000));
    assert!(!tx_processors_sigs_check(&mut timer, 0));
    assert!(tx_processors_sigs_check(&mut timer, u64::MAX));
}
