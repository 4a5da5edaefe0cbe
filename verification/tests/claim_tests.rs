use mintx::claim::{claimable_amount, prepare_claim, settle_claim, ClaimAction};
use mintx::errors::VestingError;
use mintx::scheduler::vested_amount;
use mintx::state::{mint_decimals, UserVesting, VestingConfig};

fn test_config() -> VestingConfig {
    VestingConfig::new(vec![1u8; 32], vec![2u8; 32], 0, 100, 1000, 1000, 254)
}

fn test_mint_data(decimals: u8) -> Vec<u8> {
    let mut data = vec![0u8; 45];
    data[44] = decimals;
    data
}

/// A transfer collaborator stub that refuses every movement.
fn failing_transfer(_amount: u64, _decimals: u8) -> bool {
    false
}

#[test]
fn claim_after_earlier_claim_releases_the_delta() {
    let config = test_config();
    let mut record = UserVesting::new(1000, 255);
    record.record_claim(100);
    assert_eq!(record.claimed_amount, 100);

    assert_eq!(claimable_amount(&config, &record, 550), 450);
    let action = prepare_claim(&config, &record, &test_mint_data(6), 550);
    assert_eq!(action, Ok(ClaimAction::Transfer { amount: 450, decimals: 6 }));

    let settled = settle_claim(&mut record, 450, true);
    assert_eq!(settled, Ok(450));
    assert_eq!(record.claimed_amount, 550);
    assert_eq!(record.total_allocation, 1000);
}

#[test]
fn second_claim_at_the_same_time_is_a_noop() {
    let config = test_config();
    let mut record = UserVesting::new(1000, 255);

    let first = claimable_amount(&config, &record, 550);
    assert_eq!(first, 550);
    assert_eq!(settle_claim(&mut record, first, true), Ok(550));

    assert_eq!(claimable_amount(&config, &record, 550), 0);
    let action = prepare_claim(&config, &record, &test_mint_data(6), 550);
    assert_eq!(action, Ok(ClaimAction::NoOp));
    assert_eq!(record.claimed_amount, 550);
}

#[test]
fn premature_claim_is_a_noop_not_an_error() {
    let config = test_config();
    let record = UserVesting::new(1000, 255);
    // before the cliff nothing vests, and the asset descriptor is not
    // even consulted
    let action = prepare_claim(&config, &record, &Vec::new(), 50);
    assert_eq!(action, Ok(ClaimAction::NoOp));
}

#[test]
fn short_asset_descriptor_is_malformed() {
    let config = test_config();
    let record = UserVesting::new(1000, 255);
    let action = prepare_claim(&config, &record, &vec![0u8; 44], 550);
    assert_eq!(action, Err(VestingError::ScheduleMalformed));
}

#[test]
fn failed_transfer_leaves_the_record_unchanged() {
    let config = test_config();
    let mut record = UserVesting::new(1000, 255);

    let action = prepare_claim(&config, &record, &test_mint_data(9), 550);
    let (amount, decimals) = match action {
        Ok(ClaimAction::Transfer { amount, decimals }) => (amount, decimals),
        other => panic!("expected a transfer, got {:?}", other),
    };
    assert_eq!(amount, 550);

    let outcome = failing_transfer(amount, decimals);
    let settled = settle_claim(&mut record, amount, outcome);
    assert_eq!(settled, Err(VestingError::TransferFailed));
    assert_eq!(record.claimed_amount, 0);
    assert_eq!(record.total_allocation, 1000);
    assert_eq!(record.bump, 255);
}

#[test]
fn repeated_claims_release_exactly_the_final_vested_amount() {
    let config = test_config();
    let mut record = UserVesting::new(1000, 255);
    let times: [i64; 7] = [-20, 50, 100, 100, 550, 550, 1000];
    let mut released: u64 = 0;
    for now in times {
        let delta = claimable_amount(&config, &record, now);
        if delta > 0 {
            assert_eq!(settle_claim(&mut record, delta, true), Ok(delta));
        }
        released += delta;
    }
    assert_eq!(released, vested_amount(1000, 0, 100, 1000, 1000));
    assert_eq!(released, 1000);
    assert_eq!(record.claimed_amount, 1000);
}

#[test]
fn mint_decimals_reads_the_offset_44_byte() {
    assert_eq!(mint_decimals(&test_mint_data(9)), Ok(9));
    let mut long_data = vec![7u8; 80];
    long_data[44] = 2;
    assert_eq!(mint_decimals(&long_data), Ok(2));
    assert_eq!(mint_decimals(&vec![0u8; 44]), Err(VestingError::ScheduleMalformed));
    assert_eq!(mint_decimals(&Vec::new()), Err(VestingError::ScheduleMalformed));
}

#[test]
fn record_claim_saturates_at_the_top() {
    let mut record = UserVesting::new(u64::MAX, 1);
    record.record_claim(u64::MAX);
    record.record_claim(u64::MAX);
    assert_eq!(record.claimed_amount, u64::MAX);
}
