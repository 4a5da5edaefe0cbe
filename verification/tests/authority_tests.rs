use anchor_lang::solana_program::pubkey::Pubkey;
use mintx::authority::{
    derive_record_address, derive_schedule_authority, schedule_signer_seeds, user_vesting_tag,
    vesting_config_tag,
};

#[test]
fn domain_tags_spell_the_record_kinds() {
    assert_eq!(vesting_config_tag(), b"vesting_config".to_vec());
    assert_eq!(user_vesting_tag(), b"user_vesting".to_vec());
}

#[test]
fn schedule_authority_matches_the_host_derivation() {
    let mint = vec![7u8; 32];
    let program = vec![3u8; 32];
    let (address, bump) = derive_schedule_authority(&mint, &program).unwrap();

    let program_id = Pubkey::new_from_array([3u8; 32]);
    let (expected, expected_bump) =
        Pubkey::find_program_address(&[b"vesting_config", &mint], &program_id);
    assert_eq!(address, expected.to_bytes().to_vec());
    assert_eq!(bump, expected_bump);
    // the derivation really transformed its inputs
    assert_ne!(address, mint);
    assert_ne!(address, program);
}

#[test]
fn record_address_matches_the_host_derivation() {
    let mint = vec![7u8; 32];
    let program = vec![3u8; 32];
    let beneficiary = vec![5u8; 32];
    let (schedule_key, _) = derive_schedule_authority(&mint, &program).unwrap();
    let (address, bump) =
        derive_record_address(&schedule_key, &beneficiary, &program).unwrap();

    let program_id = Pubkey::new_from_array([3u8; 32]);
    let (expected, expected_bump) = Pubkey::find_program_address(
        &[b"user_vesting", &schedule_key, &beneficiary],
        &program_id,
    );
    assert_eq!(address, expected.to_bytes().to_vec());
    assert_eq!(bump, expected_bump);
}

#[test]
fn distinct_assets_get_distinct_authorities() {
    let program = vec![3u8; 32];
    let (a, _) = derive_schedule_authority(&vec![1u8; 32], &program).unwrap();
    let (b, _) = derive_schedule_authority(&vec![2u8; 32], &program).unwrap();
    assert_ne!(a, b);
    assert_eq!(a.len(), 32);
    assert_eq!(b.len(), 32);
}

#[test]
fn signer_seeds_are_tag_mint_and_bump() {
    let mint = vec![7u8; 32];
    let seeds = schedule_signer_seeds(&mint, 251);
    assert_eq!(seeds.len(), 3);
    assert_eq!(seeds[0], b"vesting_config".to_vec());
    assert_eq!(seeds[1], mint);
    assert_eq!(seeds[2], vec![251u8]);
}

#[test]
fn derived_authority_can_rebuild_its_own_address() {
    // the stored bump seed lets the schedule prove its derivation:
    // appending it to the public seeds recreates the derived address
    let mint = vec![7u8; 32];
    let program = vec![3u8; 32];
    let (address, bump) = derive_schedule_authority(&mint, &program).unwrap();
    let seeds = schedule_signer_seeds(&mint, bump);
    let program_id = Pubkey::new_from_array([3u8; 32]);
    let slices: Vec<&[u8]> = seeds.iter().map(|s| s.as_slice()).collect();
    let rebuilt = Pubkey::create_program_address(&slices, &program_id).unwrap();
    assert_eq!(address, rebuilt.to_bytes().to_vec());
}
