use solana_program::pubkey::Pubkey;
use token_vault::derivation::{derive_user_vault_address, derive_vault_authority};

#[test]
fn user_vault_address_matches_the_derivation_primitive() {
    let user = [7u8; 32];
    let vault = [8u8; 32];
    let program_id = [9u8; 32];
    let (addr, bump) = derive_user_vault_address(&user, &vault, &program_id).unwrap();
    let (expected, expected_bump) = Pubkey::find_program_address(
        &[b"user_vault", &user, &vault],
        &Pubkey::new_from_array(program_id),
    );
    assert_eq!(addr, expected.to_bytes());
    assert_eq!(bump, expected_bump);
    // A derived address is a fresh identity, not any of its inputs.
    assert_ne!(addr, user);
    assert_ne!(addr, vault);
    assert_ne!(addr, program_id);
}

#[test]
fn vault_authority_matches_the_derivation_primitive() {
    let program_id = [11u8; 32];
    let (addr, bump) = derive_vault_authority(&program_id).unwrap();
    let (expected, expected_bump) =
        Pubkey::find_program_address(&[b"vault"], &Pubkey::new_from_array(program_id));
    assert_eq!(addr, expected.to_bytes());
    assert_eq!(bump, expected_bump);
    assert_ne!(addr, program_id);
}

#[test]
fn derivation_is_deterministic() {
    let user = [1u8; 32];
    let vault = [2u8; 32];
    let program_id = [3u8; 32];
    let a = derive_user_vault_address(&user, &vault, &program_id).unwrap();
    let b = derive_user_vault_address(&user, &vault, &program_id).unwrap();
    assert_eq!(a, b);
}

#[test]
fn distinct_inputs_derive_distinct_addresses() {
    let program_id = [3u8; 32];
    let a = derive_user_vault_address(&[1u8; 32], &[2u8; 32], &program_id).unwrap();
    let b = derive_user_vault_address(&[2u8; 32], &[1u8; 32], &program_id).unwrap();
    assert_ne!(a.0, b.0);
}
