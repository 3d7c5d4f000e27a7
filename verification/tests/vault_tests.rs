use vault_core::key::Key;
use vault_core::result::VaultCoreError;
use vault_core::vault::Vault;

fn key(n: u8) -> Key {
    Key::new([n; 32])
}

#[test]
fn test_deposit_ratio_simple_ok() {
    let mut vault = Vault::new(key(1), key(2), key(3), 0, key(4), 0, 0, 0);
    let num_minted = vault.deposit_and_mint_with_capacity_check(100).unwrap();
    assert_eq!(num_minted, 100);

    assert_eq!(vault.tokens_deposited(), 100);
    assert_eq!(vault.lrt_supply(), 100);
}

#[test]
fn test_deposit_ratio_after_slashed_ok() {
    let mut vault = Vault::new(key(1), key(2), key(3), 0, key(4), 0, 0, 0);
    vault.set_tokens_deposited(90);
    vault.set_lrt_supply(100);

    let num_minted = vault.deposit_and_mint_with_capacity_check(100).unwrap();
    assert_eq!(num_minted, 111);

    assert_eq!(vault.tokens_deposited(), 190);
    assert_eq!(vault.lrt_supply(), 211);
}

#[test]
fn test_deposit_capacity_exceeded_fails() {
    let mut vault = Vault::new(key(1), key(2), key(3), 0, key(4), 0, 0, 0);
    vault.set_capacity(100);

    assert_eq!(
        vault.deposit_and_mint_with_capacity_check(101),
        Err(VaultCoreError::DepositExceedsCapacity)
    );
}

#[test]
fn test_deposit_capacity_ok() {
    let mut vault = Vault::new(key(1), key(2), key(3), 0, key(4), 0, 0, 0);
    vault.set_capacity(100);

    vault.deposit_and_mint_with_capacity_check(50).unwrap();
    vault.deposit_and_mint_with_capacity_check(50).unwrap();
    assert_eq!(
        vault.deposit_and_mint_with_capacity_check(1),
        Err(VaultCoreError::DepositExceedsCapacity)
    );
}

#[test]
fn test_new_record_defaults() {
    let vault = Vault::new(key(1), key(2), key(3), 7, key(4), 15, 25, 254);
    assert_eq!(vault.lrt_mint(), key(1));
    assert_eq!(vault.supported_mint(), key(2));
    assert_eq!(vault.admin(), key(3));
    assert_eq!(vault.delegation_admin(), key(3));
    assert_eq!(vault.fee_owner(), key(3));
    assert_eq!(vault.base(), key(4));
    assert_eq!(vault.vault_index(), 7);
    assert_eq!(vault.deposit_fee_bps(), 15);
    assert_eq!(vault.withdrawal_fee_bps(), 25);
    assert_eq!(vault.bump(), 254);
    assert_eq!(vault.mint_burn_authority(), None);
    assert_eq!(vault.capacity(), u64::MAX);
    assert_eq!(vault.tokens_deposited(), 0);
    assert_eq!(vault.lrt_supply(), 0);
    assert!(vault.is_struct_valid());
}

#[test]
fn test_deposit_mint_overflow_fails() {
    let mut vault = Vault::new(key(1), key(2), key(3), 0, key(4), 0, 0, 0);
    vault.set_tokens_deposited(1);
    vault.set_lrt_supply(u64::MAX);
    assert_eq!(
        vault.deposit_and_mint_with_capacity_check(2),
        Err(VaultCoreError::DepositOverflow)
    );
    assert_eq!(vault.tokens_deposited(), 1);
    assert_eq!(vault.lrt_supply(), u64::MAX);
}

#[test]
fn test_deposit_supply_overflow_fails() {
    // An empty pool with outstanding supply: the 1:1 mint overflows the
    // supply counter.
    let mut vault = Vault::new(key(1), key(2), key(3), 0, key(4), 0, 0, 0);
    vault.set_lrt_supply(u64::MAX);
    assert_eq!(
        vault.deposit_and_mint_with_capacity_check(1),
        Err(VaultCoreError::DepositOverflow)
    );
    assert_eq!(vault.tokens_deposited(), 0);
    assert_eq!(vault.lrt_supply(), u64::MAX);
}

#[test]
fn test_deposit_custody_add_overflow_fails() {
    let mut vault = Vault::new(key(1), key(2), key(3), 0, key(4), 0, 0, 0);
    vault.set_tokens_deposited(u64::MAX);
    vault.set_lrt_supply(0);
    assert_eq!(
        vault.deposit_and_mint_with_capacity_check(1),
        Err(VaultCoreError::DepositOverflow)
    );
}

#[test]
fn test_deposit_first_identity_ignores_supply() {
    let mut vault = Vault::new(key(1), key(2), key(3), 0, key(4), 0, 0, 0);
    vault.set_lrt_supply(500);
    let minted = vault.deposit_and_mint_with_capacity_check(40).unwrap();
    assert_eq!(minted, 40);
    assert_eq!(vault.tokens_deposited(), 40);
    assert_eq!(vault.lrt_supply(), 540);
}

#[test]
fn test_calculate_fees_exact() {
    let vault = Vault::new(key(1), key(2), key(3), 0, key(4), 50, 9999, 0);
    assert_eq!(vault.calculate_deposit_fee(10000), Ok(50));
    assert_eq!(vault.calculate_deposit_fee(199), Ok(0));
    assert_eq!(vault.calculate_deposit_fee(0), Ok(0));
    assert_eq!(vault.calculate_withdraw_fee(9), Ok(8));
    assert_eq!(vault.calculate_withdraw_fee(10000), Ok(9999));
    let no_fee = Vault::new(key(1), key(2), key(3), 0, key(4), 0, 0, 0);
    assert_eq!(no_fee.calculate_deposit_fee(u64::MAX), Ok(0));
    assert_eq!(no_fee.calculate_withdraw_fee(12345), Ok(0));
}

#[test]
fn test_calculate_fee_overflow_fails() {
    let vault = Vault::new(key(1), key(2), key(3), 0, key(4), 2, 3, 0);
    assert_eq!(
        vault.calculate_deposit_fee(u64::MAX),
        Err(VaultCoreError::FeeCalculationOverflow)
    );
    assert_eq!(
        vault.calculate_withdraw_fee(u64::MAX),
        Err(VaultCoreError::FeeCalculationOverflow)
    );
}

#[test]
fn test_increment_lrt_supply() {
    let mut vault = Vault::new(key(1), key(2), key(3), 0, key(4), 0, 0, 0);
    vault.set_lrt_supply(10);
    assert_eq!(vault.increment_lrt_supply(5), Some(15));
    assert_eq!(vault.lrt_supply(), 15);
    assert_eq!(vault.increment_lrt_supply(u64::MAX), None);
    assert_eq!(vault.lrt_supply(), 15);
}

#[test]
fn test_setters() {
    let mut vault = Vault::new(key(1), key(2), key(3), 0, key(4), 0, 0, 0);
    vault.set_admin(key(9));
    assert_eq!(vault.admin(), key(9));
    assert_eq!(vault.delegation_admin(), key(3));
    vault.set_delegation_admin(key(10));
    assert_eq!(vault.delegation_admin(), key(10));
    vault.set_capacity(123);
    assert_eq!(vault.capacity(), 123);
}
