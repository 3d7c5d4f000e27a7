use vault_core::account::AccountView;
use vault_core::encoding::{decode_record, encode_record, RECORD_LEN};
use vault_core::key::Key;
use vault_core::result::VaultCoreError;
use vault_core::sanitized::SanitizedVault;
use vault_core::vault::Vault;

fn key(n: u8) -> Key {
    Key::new([n; 32])
}

fn sample_vault(bump: u8) -> Vault {
    let mut v = Vault::new(key(11), key(12), key(13), 42, key(14), 100, 200, bump);
    v.set_tokens_deposited(9000);
    v.set_lrt_supply(8000);
    v.set_capacity(1_000_000);
    v
}

/// A program id, plus an account holding `vault` at its canonical derived
/// address.
fn vault_account(vault: &Vault) -> AccountView {
    AccountView {
        key: key(99),
        owner: key(7),
        is_writable: true,
        data: encode_record(vault),
    }
}

/// Derives the canonical address for `base` under program `key(7)` and
/// returns a fully consistent (program id, account) pair for `vault`.
fn authentic_account(base: Key) -> (Key, Vault, AccountView) {
    let program_id = key(7);
    let (address, bump, seeds) = Vault::find_program_address(&program_id, &base).unwrap();
    assert_eq!(seeds[0], b"vault".to_vec());
    assert_eq!(seeds[1], base.bytes.to_vec());
    let mut vault = sample_vault(bump);
    vault.base = base;
    let mut account = vault_account(&vault);
    account.key = address;
    (program_id, vault, account)
}

#[test]
fn test_encode_round_trip() {
    let vault = sample_vault(251);
    let bytes = encode_record(&vault);
    assert_eq!(bytes.len(), RECORD_LEN);
    let decoded = decode_record(&bytes).unwrap();
    assert_eq!(decoded, vault);
}

#[test]
fn test_encode_round_trip_with_authority() {
    let mut vault = sample_vault(9);
    vault.mint_burn_authority = Some(key(21));
    let bytes = encode_record(&vault);
    assert_eq!(bytes.len(), RECORD_LEN);
    let decoded = decode_record(&bytes).unwrap();
    assert_eq!(decoded, vault);
    assert_eq!(decoded.mint_burn_authority(), Some(key(21)));
}

#[test]
fn test_encode_fixed_length() {
    let small = Vault::new(key(0), key(0), key(0), 0, key(0), 0, 0, 0);
    let large = Vault::new(
        key(255),
        key(255),
        key(255),
        u64::MAX,
        key(255),
        u16::MAX,
        u16::MAX,
        u8::MAX,
    );
    assert_eq!(encode_record(&small).len(), RECORD_LEN);
    assert_eq!(encode_record(&large).len(), RECORD_LEN);
    assert_eq!(encode_record(&small), encode_record(&small));
}

#[test]
fn test_decode_rejects_short_buffer() {
    let vault = sample_vault(3);
    let mut bytes = encode_record(&vault);
    bytes.truncate(500);
    assert!(decode_record(&bytes).is_none());
}

#[test]
fn test_decode_rejects_unknown_kind() {
    let vault = sample_vault(3);
    let mut bytes = encode_record(&vault);
    bytes[0] = 200;
    assert!(decode_record(&bytes).is_none());
}

#[test]
fn test_sanitize_accepts_authentic_account() {
    let (program_id, vault, account) = authentic_account(key(14));
    let handle = SanitizedVault::sanitize(&program_id, account, true).unwrap();
    assert_eq!(*handle.vault(), vault);
    assert_eq!(handle.account().owner, program_id);
}

#[test]
fn test_sanitize_rejects_wrong_owner() {
    let (program_id, _, mut account) = authentic_account(key(14));
    account.owner = key(8);
    assert!(matches!(
        SanitizedVault::sanitize(&program_id, account, false),
        Err(VaultCoreError::OwnershipMismatch)
    ));
}

#[test]
fn test_sanitize_rejects_wrong_address() {
    let (program_id, _, mut account) = authentic_account(key(14));
    account.key = key(123);
    assert!(matches!(
        SanitizedVault::sanitize(&program_id, account, false),
        Err(VaultCoreError::AddressMismatch)
    ));
}

#[test]
fn test_sanitize_rejects_foreign_base_at_right_slot() {
    // A structurally valid, correctly owned record copied from another
    // vault: its own base and bump derive a different address than the
    // slot it sits at.
    let (program_id, _, account) = authentic_account(key(14));
    let (_, other_vault, _) = authentic_account(key(77));
    let mut forged = account;
    forged.data = encode_record(&other_vault);
    assert!(matches!(
        SanitizedVault::sanitize(&program_id, forged, false),
        Err(VaultCoreError::AddressMismatch)
    ));
}

#[test]
fn test_sanitize_rejects_empty_buffer() {
    let (program_id, _, mut account) = authentic_account(key(14));
    account.data = Vec::new();
    assert!(matches!(
        SanitizedVault::sanitize(&program_id, account, false),
        Err(VaultCoreError::UninitializedState)
    ));
}

#[test]
fn test_sanitize_rejects_truncated_buffer() {
    let (program_id, _, mut account) = authentic_account(key(14));
    account.data.truncate(100);
    assert!(matches!(
        SanitizedVault::sanitize(&program_id, account, false),
        Err(VaultCoreError::MalformedEncoding)
    ));
}

#[test]
fn test_sanitize_rejects_wrong_record_kind() {
    let (program_id, _, mut account) = authentic_account(key(14));
    // The configuration kind decodes but is not a vault record.
    account.data[0] = 0;
    assert!(matches!(
        SanitizedVault::sanitize(&program_id, account, false),
        Err(VaultCoreError::StructurallyInvalid)
    ));
}

#[test]
fn test_sanitize_rejects_unwritable_when_required() {
    let (program_id, _, mut account) = authentic_account(key(14));
    account.is_writable = false;
    assert!(matches!(
        SanitizedVault::sanitize(&program_id, account, true),
        Err(VaultCoreError::WritabilityViolation)
    ));
}

#[test]
fn test_save_persists_mutation() {
    let (program_id, _, account) = authentic_account(key(14));
    let mut handle = SanitizedVault::sanitize(&program_id, account, true).unwrap();
    handle
        .vault_mut()
        .deposit_and_mint_with_capacity_check(1000)
        .unwrap();
    handle.vault_mut().set_capacity(2_000_000);
    handle.save().unwrap();

    let saved = handle.account().data.clone();
    let reloaded = decode_record(&saved).unwrap();
    assert_eq!(reloaded.tokens_deposited(), 10_000);
    assert_eq!(reloaded.capacity(), 2_000_000);
    assert_eq!(reloaded, *handle.vault());
}

#[test]
fn test_save_preserves_trailing_bytes() {
    let (program_id, vault, mut account) = authentic_account(key(14));
    account.data.push(171);
    account.data.push(205);
    let mut handle = SanitizedVault::sanitize(&program_id, account, false).unwrap();
    handle.vault_mut().set_lrt_supply(1);
    handle.save().unwrap();
    let data = &handle.account().data;
    assert_eq!(data.len(), RECORD_LEN + 2);
    assert_eq!(data[RECORD_LEN], 171);
    assert_eq!(data[RECORD_LEN + 1], 205);
    let mut expected = vault;
    expected.set_lrt_supply(1);
    assert_eq!(decode_record(data).unwrap(), expected);
}

#[test]
fn test_deserialize_checked_matches_sanitize() {
    let (program_id, vault, account) = authentic_account(key(14));
    let loaded = Vault::deserialize_checked(&program_id, &account).unwrap();
    assert_eq!(loaded, vault);
}

#[test]
fn test_reserved_block_survives_round_trip() {
    let mut vault = sample_vault(17);
    vault.reserved[0] = 1;
    vault.reserved[1023] = 2;
    let decoded = decode_record(&encode_record(&vault)).unwrap();
    assert_eq!(decoded.reserved[0], 1);
    assert_eq!(decoded.reserved[1023], 2);
    assert_eq!(decoded, vault);
}

#[test]
fn test_find_program_address_deterministic() {
    let (a1, b1, s1) = Vault::find_program_address(&key(7), &key(14)).unwrap();
    let (a2, b2, s2) = Vault::find_program_address(&key(7), &key(14)).unwrap();
    assert_eq!(a1, a2);
    assert_eq!(b1, b2);
    assert_eq!(s1, s2);
}
