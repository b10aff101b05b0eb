use reward_distributor::{
    claim_rewards, initialize_reward_account, record_claim, Config, ErrorCode, Identity,
    Operation, RewardAccount,
};

const ORACLE: Identity = [0x0Au8; 32];
const MODULE: Identity = [9u8; 32];
const DEVICE: Identity = [0xD0u8; 32];
const OWNER: Identity = [0x0Bu8; 32];

fn config() -> Config {
    Config { oracle: ORACLE, signature_module: MODULE }
}

fn record(identity: &[u8], message: &[u8]) -> Vec<u8> {
    let message_at = (16 + identity.len() + 64) as u16;
    let mut data = vec![1u8, 0u8];
    data.extend_from_slice(&((16 + identity.len()) as u16).to_le_bytes());
    data.extend_from_slice(&u16::MAX.to_le_bytes());
    data.extend_from_slice(&16u16.to_le_bytes());
    data.extend_from_slice(&u16::MAX.to_le_bytes());
    data.extend_from_slice(&message_at.to_le_bytes());
    data.extend_from_slice(&(message.len() as u16).to_le_bytes());
    data.extend_from_slice(&u16::MAX.to_le_bytes());
    data.extend_from_slice(identity);
    data.extend_from_slice(&[0xABu8; 64]);
    data.extend_from_slice(message);
    data
}

/// A batch of a proof signed by `signer` and the claim that consumes it.
fn batch_signed_by(signer: &Identity) -> Vec<Operation> {
    vec![
        Operation { module: MODULE, payload: record(signer, b"lifetime rewards") },
        Operation { module: [1u8; 32], payload: vec![2u8; 24] },
    ]
}

fn account_with(total_claimed: u64) -> RewardAccount {
    RewardAccount { device_pubkey: DEVICE, withdraw_authority: OWNER, total_claimed }
}

#[test]
fn new_account_belongs_to_the_payer_and_has_claimed_nothing() {
    let account = initialize_reward_account(OWNER, DEVICE);
    assert_eq!(account.device_pubkey, DEVICE);
    assert_eq!(account.withdraw_authority, OWNER);
    assert_eq!(account.total_claimed, 0);
}

#[test]
fn claim_scenario() {
    let mut account = account_with(1000);
    let batch = batch_signed_by(&ORACLE);

    let amount = claim_rewards(&account, &batch, 1, &config(), 1500, 0);
    assert_eq!(amount, Ok(500));
    assert_eq!(record_claim(&mut account, 500), Ok(()));
    assert_eq!(account.total_claimed, 1500);

    assert_eq!(
        claim_rewards(&account, &batch, 1, &config(), 1500, 0),
        Err(ErrorCode::NoRewardsToClaim)
    );
    assert_eq!(
        claim_rewards(&account, &batch, 1, &config(), 900, 0),
        Err(ErrorCode::InvalidRewardAmount)
    );
    assert_eq!(account, account_with(1500));
}

#[test]
fn first_claim_pays_the_whole_lifetime_total() {
    let mut account = initialize_reward_account(OWNER, DEVICE);
    let batch = batch_signed_by(&ORACLE);
    assert_eq!(claim_rewards(&account, &batch, 1, &config(), 42, 7), Ok(42));
    assert_eq!(record_claim(&mut account, 42), Ok(()));
    assert_eq!(account.total_claimed, 42);
    assert_eq!(account.device_pubkey, DEVICE);
    assert_eq!(account.withdraw_authority, OWNER);
}

#[test]
fn claim_amounts_are_exact_differences() {
    let batch = batch_signed_by(&ORACLE);
    let cases: [(u64, u64, u64); 5] = [
        (0, 1, 1),
        (0, u64::MAX, u64::MAX),
        (1, u64::MAX, u64::MAX - 1),
        (u64::MAX - 1, u64::MAX, 1),
        (123_456, 1_000_000, 876_544),
    ];
    for (claimed, lifetime, due) in cases {
        let mut account = account_with(claimed);
        assert_eq!(claim_rewards(&account, &batch, 1, &config(), lifetime, 0), Ok(due));
        assert_eq!(account.rewards_to_claim(lifetime), Ok(due));
        assert_eq!(record_claim(&mut account, due), Ok(()));
        assert_eq!(account.total_claimed, lifetime);
    }
}

#[test]
fn stale_attestation_is_rejected() {
    let batch = batch_signed_by(&ORACLE);
    for (claimed, lifetime) in [(1u64, 0u64), (1000, 999), (u64::MAX, 0), (u64::MAX, u64::MAX - 1)] {
        let account = account_with(claimed);
        assert_eq!(
            claim_rewards(&account, &batch, 1, &config(), lifetime, 0),
            Err(ErrorCode::InvalidRewardAmount)
        );
        assert_eq!(account.rewards_to_claim(lifetime), Err(ErrorCode::InvalidRewardAmount));
        assert_eq!(account.total_claimed, claimed);
    }
}

#[test]
fn attestation_of_what_was_paid_has_nothing_to_claim() {
    let batch = batch_signed_by(&ORACLE);
    for claimed in [0u64, 1, 1000, u64::MAX] {
        let account = account_with(claimed);
        assert_eq!(
            claim_rewards(&account, &batch, 1, &config(), claimed, 0),
            Err(ErrorCode::NoRewardsToClaim)
        );
        assert_eq!(account.rewards_to_claim(claimed), Err(ErrorCode::NoRewardsToClaim));
    }
}

#[test]
fn same_attestation_pays_once() {
    let mut account = account_with(250);
    let first = batch_signed_by(&ORACLE);
    let amount = claim_rewards(&account, &first, 1, &config(), 700, 0).unwrap();
    assert_eq!(amount, 450);
    record_claim(&mut account, amount).unwrap();

    let mut second = vec![Operation { module: [3u8; 32], payload: Vec::new() }];
    second.extend(batch_signed_by(&ORACLE));
    assert_eq!(
        claim_rewards(&account, &second, 2, &config(), 700, 0),
        Err(ErrorCode::NoRewardsToClaim)
    );
    assert_eq!(account.total_claimed, 700);
}

#[test]
fn claim_without_companion_is_rejected_before_the_amount_is_looked_at() {
    let account = account_with(1000);
    let batch = batch_signed_by(&ORACLE);
    for lifetime in [900u64, 1000, 1500] {
        assert_eq!(
            claim_rewards(&account, &batch, 0, &config(), lifetime, 0),
            Err(ErrorCode::InvalidInstruction)
        );
        assert_eq!(
            claim_rewards(&account, &batch, 2, &config(), lifetime, 0),
            Err(ErrorCode::InvalidInstruction)
        );
        assert_eq!(
            claim_rewards(&account, &[], 1, &config(), lifetime, 0),
            Err(ErrorCode::InvalidInstruction)
        );
    }
}

#[test]
fn claim_needs_the_oracle_as_signer() {
    let account = account_with(1000);
    // Signed by the device, or by the withdrawal authority: not by the oracle.
    for signer in [DEVICE, OWNER] {
        let batch = batch_signed_by(&signer);
        assert_eq!(
            claim_rewards(&account, &batch, 1, &config(), 1500, 0),
            Err(ErrorCode::InvalidInstruction)
        );
    }
    let mock = Config { oracle: DEVICE, signature_module: MODULE };
    assert_eq!(claim_rewards(&account, &batch_signed_by(&DEVICE), 1, &mock, 1500, 0), Ok(500));
}

#[test]
fn claim_needs_a_proof_of_the_signature_module() {
    let account = account_with(1000);
    let mut batch = batch_signed_by(&ORACLE);
    batch[0].module = [8u8; 32];
    assert_eq!(
        claim_rewards(&account, &batch, 1, &config(), 1500, 0),
        Err(ErrorCode::InvalidInstruction)
    );
}

#[test]
fn claim_with_tampered_proof_is_rejected() {
    let account = account_with(1000);
    let mut batch = batch_signed_by(&ORACLE);
    batch[0].payload[4] = 0;
    batch[0].payload[5] = 0;
    assert_eq!(
        claim_rewards(&account, &batch, 1, &config(), 1500, 0),
        Err(ErrorCode::InvalidInstruction)
    );
}

#[test]
fn content_of_the_oracle_message_is_not_checked() {
    let account = account_with(10);
    for message in [&b""[..], &b"anything at all"[..], &[0xFFu8; 200][..]] {
        let batch = vec![
            Operation { module: MODULE, payload: record(&ORACLE, message) },
            Operation { module: [1u8; 32], payload: Vec::new() },
        ];
        assert_eq!(claim_rewards(&account, &batch, 1, &config(), 25, 0), Ok(15));
    }
}

#[test]
fn timestamp_does_not_matter() {
    let account = account_with(10);
    let batch = batch_signed_by(&ORACLE);
    for timestamp in [0u64, 1, u64::MAX] {
        assert_eq!(claim_rewards(&account, &batch, 1, &config(), 25, timestamp), Ok(15));
    }
}

#[test]
fn record_adds_to_the_counter() {
    let mut account = account_with(5);
    assert_eq!(record_claim(&mut account, 0), Ok(()));
    assert_eq!(account.total_claimed, 5);
    assert_eq!(record_claim(&mut account, u64::MAX - 5), Ok(()));
    assert_eq!(account.total_claimed, u64::MAX);
}

#[test]
fn record_beyond_the_range_overflows_and_changes_nothing() {
    let mut account = account_with(u64::MAX - 4);
    assert_eq!(record_claim(&mut account, 5), Err(ErrorCode::RewardOverflow));
    assert_eq!(account, account_with(u64::MAX - 4));
    assert_eq!(record_claim(&mut account, u64::MAX), Err(ErrorCode::RewardOverflow));
    assert_eq!(account, account_with(u64::MAX - 4));
    assert_eq!(record_claim(&mut account, 4), Ok(()));
    assert_eq!(account.total_claimed, u64::MAX);
    assert_eq!(record_claim(&mut account, 1), Err(ErrorCode::RewardOverflow));
}
