use anchor_lang::prelude::Pubkey;
use vault_test::address::Address;
use vault_test::derivation::{derive_vault_address, verify_derivation, DerivedAuthority};
use vault_test::errors::{TransferError, VaultError};
use vault_test::ledger::TokenLedger;
use vault_test::vault::{
    deposit, initialize_vault, withdraw, Deposit, InitializeVault, VaultRegistry, Withdraw,
};

fn addr(fill: u8) -> Address {
    Address { bytes: [fill; 32] }
}

/// A registry holding one initialized vault for `owner`, a ledger with the
/// custody account (owned by the vault's derived address) and a user account,
/// and the derived record address.
fn setup(
    owner: Address,
    user: Address,
    custody: Address,
    user_token: Address,
    program: Address,
    user_funds: u64,
) -> (VaultRegistry, TokenLedger, Address) {
    let mut registry = VaultRegistry::new();
    let init = InitializeVault {
        authority: owner,
        authority_signed: true,
        vault_token_account: custody,
    };
    initialize_vault(&mut registry, &init, &program).expect("initialization");
    let (vault_addr, _bump) = derive_vault_address(&owner, &program).expect("derivation");

    let mut ledger = TokenLedger::new();
    assert!(ledger.create_account(&custody, &vault_addr));
    assert!(ledger.create_account(&user_token, &user));
    ledger.mint_to(&user_token, user_funds).expect("mint");
    (registry, ledger, vault_addr)
}

#[test]
fn derive_is_deterministic() {
    let owner = addr(7);
    let program = addr(11);
    let first = derive_vault_address(&owner, &program);
    let second = derive_vault_address(&owner, &program);
    assert!(first.is_some());
    assert_eq!(first, second);
}

#[test]
fn derive_matches_platform_search() {
    let owner = addr(5);
    let program = addr(11);
    let (a, bump) = derive_vault_address(&owner, &program).expect("derivation");
    let (expected, expected_bump) = Pubkey::find_program_address(
        &[b"vault", owner.bytes.as_ref()],
        &Pubkey::new_from_array(program.bytes),
    );
    assert_eq!(a.bytes, expected.to_bytes());
    assert_eq!(bump, expected_bump);
}

#[test]
fn derived_address_is_off_curve() {
    let owner = addr(42);
    let program = addr(11);
    let (a, _bump) = derive_vault_address(&owner, &program).expect("derivation");
    assert!(!Pubkey::new_from_array(a.bytes).is_on_curve());
}

#[test]
fn derived_address_differs_from_inputs() {
    let owner = addr(42);
    let program = addr(11);
    let (a, _bump) = derive_vault_address(&owner, &program).expect("derivation");
    assert_ne!(a, owner);
    assert_ne!(a, program);
}

#[test]
fn verify_derivation_accepts_stored_bump() {
    let owner = addr(3);
    let program = addr(11);
    let (a, bump) = derive_vault_address(&owner, &program).expect("derivation");
    assert!(verify_derivation(&owner, bump, &program, &a));
}

#[test]
fn verify_derivation_rejects_other_owner() {
    let owner = addr(3);
    let other = addr(4);
    let program = addr(11);
    let (a, bump) = derive_vault_address(&owner, &program).expect("derivation");
    assert!(!verify_derivation(&other, bump, &program, &a));
}

#[test]
fn reproduce_rebuilds_the_record_address() {
    let owner = addr(3);
    let program = addr(11);
    let (a, bump) = derive_vault_address(&owner, &program).expect("derivation");
    let da = DerivedAuthority { owner, bump };
    assert_eq!(da.reproduce(&program), Some(a));
}

#[test]
fn initialize_creates_the_record() {
    let owner = addr(1);
    let custody = addr(2);
    let program = addr(11);
    let mut registry = VaultRegistry::new();
    let init = InitializeVault {
        authority: owner,
        authority_signed: true,
        vault_token_account: custody,
    };
    assert_eq!(initialize_vault(&mut registry, &init, &program), Ok(()));
    let (vault_addr, bump) = derive_vault_address(&owner, &program).expect("derivation");
    let rec = registry.record_of(&vault_addr).expect("record");
    assert_eq!(rec.authority, owner);
    assert_eq!(rec.token_account, custody);
    assert_eq!(rec.bump, bump);
}

#[test]
fn initialize_requires_owner_signature() {
    let mut registry = VaultRegistry::new();
    let init = InitializeVault {
        authority: addr(1),
        authority_signed: false,
        vault_token_account: addr(2),
    };
    assert_eq!(
        initialize_vault(&mut registry, &init, &addr(11)),
        Err(VaultError::MissingSignature)
    );
}

#[test]
fn initialize_twice_fails_and_keeps_first_record() {
    let owner = addr(1);
    let program = addr(11);
    let mut registry = VaultRegistry::new();
    let first = InitializeVault {
        authority: owner,
        authority_signed: true,
        vault_token_account: addr(2),
    };
    assert_eq!(initialize_vault(&mut registry, &first, &program), Ok(()));
    let second = InitializeVault {
        authority: owner,
        authority_signed: true,
        vault_token_account: addr(9),
    };
    assert_eq!(
        initialize_vault(&mut registry, &second, &program),
        Err(VaultError::AlreadyInitialized)
    );
    let (vault_addr, bump) = derive_vault_address(&owner, &program).expect("derivation");
    let rec = registry.record_of(&vault_addr).expect("record");
    assert_eq!(rec.token_account, addr(2));
    assert_eq!(rec.authority, owner);
    assert_eq!(rec.bump, bump);
}

#[test]
fn deposit_needs_only_the_users_signature() {
    let owner = addr(1);
    let user = addr(20);
    let custody = addr(2);
    let user_token = addr(21);
    let program = addr(11);
    let (registry, mut ledger, vault_addr) =
        setup(owner, user, custody, user_token, program, 100);
    // The depositing user is unrelated to the vault's authority.
    let ctx = Deposit {
        vault: vault_addr,
        user_token_account: user_token,
        user_authority: user,
        user_authority_signed: true,
    };
    assert_eq!(deposit(&registry, &mut ledger, &ctx, 30, &program), Ok(()));
    assert_eq!(ledger.balance_of(&user_token), Some(70));
    assert_eq!(ledger.balance_of(&custody), Some(30));
}

#[test]
fn deposit_requires_the_users_signature() {
    let owner = addr(1);
    let user = addr(20);
    let (registry, mut ledger, vault_addr) =
        setup(owner, user, addr(2), addr(21), addr(11), 100);
    let ctx = Deposit {
        vault: vault_addr,
        user_token_account: addr(21),
        user_authority: user,
        user_authority_signed: false,
    };
    assert_eq!(
        deposit(&registry, &mut ledger, &ctx, 30, &addr(11)),
        Err(VaultError::MissingSignature)
    );
    assert_eq!(ledger.balance_of(&addr(21)), Some(100));
}

#[test]
fn deposit_then_withdraw_restores_balances() {
    let owner = addr(1);
    let custody = addr(2);
    let user_token = addr(21);
    let program = addr(11);
    let (registry, mut ledger, vault_addr) =
        setup(owner, owner, custody, user_token, program, 100);
    let dctx = Deposit {
        vault: vault_addr,
        user_token_account: user_token,
        user_authority: owner,
        user_authority_signed: true,
    };
    assert_eq!(deposit(&registry, &mut ledger, &dctx, 40, &program), Ok(()));
    assert_eq!(ledger.balance_of(&user_token), Some(60));
    assert_eq!(ledger.balance_of(&custody), Some(40));
    let wctx = Withdraw {
        vault: vault_addr,
        user_token_account: user_token,
        authority: owner,
        authority_signed: true,
    };
    assert_eq!(withdraw(&registry, &mut ledger, &wctx, 40, &program), Ok(()));
    assert_eq!(ledger.balance_of(&user_token), Some(100));
    assert_eq!(ledger.balance_of(&custody), Some(0));
}

#[test]
fn withdraw_by_another_identity_fails_and_moves_nothing() {
    let owner = addr(1);
    let outsider = addr(33);
    let custody = addr(2);
    let user_token = addr(21);
    let program = addr(11);
    let (registry, mut ledger, vault_addr) =
        setup(owner, owner, custody, user_token, program, 100);
    let dctx = Deposit {
        vault: vault_addr,
        user_token_account: user_token,
        user_authority: owner,
        user_authority_signed: true,
    };
    assert_eq!(deposit(&registry, &mut ledger, &dctx, 40, &program), Ok(()));
    let wctx = Withdraw {
        vault: vault_addr,
        user_token_account: user_token,
        authority: outsider,
        authority_signed: true,
    };
    assert_eq!(
        withdraw(&registry, &mut ledger, &wctx, 40, &program),
        Err(VaultError::MissingSignature)
    );
    assert_eq!(ledger.balance_of(&user_token), Some(60));
    assert_eq!(ledger.balance_of(&custody), Some(40));
}

#[test]
fn withdraw_unsigned_fails() {
    let owner = addr(1);
    let (registry, mut ledger, vault_addr) =
        setup(owner, owner, addr(2), addr(21), addr(11), 100);
    let wctx = Withdraw {
        vault: vault_addr,
        user_token_account: addr(21),
        authority: owner,
        authority_signed: false,
    };
    assert_eq!(
        withdraw(&registry, &mut ledger, &wctx, 1, &addr(11)),
        Err(VaultError::MissingSignature)
    );
}

#[test]
fn withdraw_more_than_custody_holds_changes_nothing() {
    let owner = addr(1);
    let custody = addr(2);
    let user_token = addr(21);
    let program = addr(11);
    let (registry, mut ledger, vault_addr) =
        setup(owner, owner, custody, user_token, program, 100);
    let dctx = Deposit {
        vault: vault_addr,
        user_token_account: user_token,
        user_authority: owner,
        user_authority_signed: true,
    };
    assert_eq!(deposit(&registry, &mut ledger, &dctx, 30, &program), Ok(()));
    let wctx = Withdraw {
        vault: vault_addr,
        user_token_account: user_token,
        authority: owner,
        authority_signed: true,
    };
    assert_eq!(
        withdraw(&registry, &mut ledger, &wctx, 50, &program),
        Err(VaultError::ExternalTransferFailure(
            TransferError::InsufficientFunds
        ))
    );
    assert_eq!(ledger.balance_of(&user_token), Some(70));
    assert_eq!(ledger.balance_of(&custody), Some(30));
}

#[test]
fn deposit_against_unknown_vault_fails() {
    let owner = addr(1);
    let (registry, mut ledger, _vault_addr) =
        setup(owner, owner, addr(2), addr(21), addr(11), 100);
    let ctx = Deposit {
        vault: addr(55),
        user_token_account: addr(21),
        user_authority: owner,
        user_authority_signed: true,
    };
    assert_eq!(
        deposit(&registry, &mut ledger, &ctx, 10, &addr(11)),
        Err(VaultError::DerivationMismatch)
    );
}

#[test]
fn deposit_from_unknown_account_fails() {
    let owner = addr(1);
    let (registry, mut ledger, vault_addr) =
        setup(owner, owner, addr(2), addr(21), addr(11), 100);
    let ctx = Deposit {
        vault: vault_addr,
        user_token_account: addr(77),
        user_authority: owner,
        user_authority_signed: true,
    };
    assert_eq!(
        deposit(&registry, &mut ledger, &ctx, 10, &addr(11)),
        Err(VaultError::ExternalTransferFailure(
            TransferError::UnknownAccount
        ))
    );
}

#[test]
fn deposit_signed_by_non_owner_of_the_source_fails() {
    let owner = addr(1);
    let user = addr(20);
    let imposter = addr(30);
    let (registry, mut ledger, vault_addr) =
        setup(owner, user, addr(2), addr(21), addr(11), 100);
    let ctx = Deposit {
        vault: vault_addr,
        user_token_account: addr(21),
        user_authority: imposter,
        user_authority_signed: true,
    };
    assert_eq!(
        deposit(&registry, &mut ledger, &ctx, 10, &addr(11)),
        Err(VaultError::ExternalTransferFailure(
            TransferError::NotAuthorized
        ))
    );
    assert_eq!(ledger.balance_of(&addr(21)), Some(100));
}

#[test]
fn deposit_overflowing_the_custody_balance_fails() {
    let owner = addr(1);
    let custody = addr(2);
    let user_token = addr(21);
    let program = addr(11);
    let (registry, mut ledger, vault_addr) =
        setup(owner, owner, custody, user_token, program, 100);
    ledger.mint_to(&custody, u64::MAX).expect("mint");
    let ctx = Deposit {
        vault: vault_addr,
        user_token_account: user_token,
        user_authority: owner,
        user_authority_signed: true,
    };
    assert_eq!(
        deposit(&registry, &mut ledger, &ctx, 1, &program),
        Err(VaultError::ExternalTransferFailure(TransferError::Overflow))
    );
    assert_eq!(ledger.balance_of(&user_token), Some(100));
    assert_eq!(ledger.balance_of(&custody), Some(u64::MAX));
}

#[test]
fn zero_amount_deposit_is_permitted() {
    let owner = addr(1);
    let custody = addr(2);
    let user_token = addr(21);
    let program = addr(11);
    let (registry, mut ledger, vault_addr) =
        setup(owner, owner, custody, user_token, program, 100);
    let ctx = Deposit {
        vault: vault_addr,
        user_token_account: user_token,
        user_authority: owner,
        user_authority_signed: true,
    };
    assert_eq!(deposit(&registry, &mut ledger, &ctx, 0, &program), Ok(()));
    assert_eq!(ledger.balance_of(&user_token), Some(100));
    assert_eq!(ledger.balance_of(&custody), Some(0));
}

#[test]
fn mint_to_unknown_account_fails() {
    let mut ledger = TokenLedger::new();
    assert_eq!(
        ledger.mint_to(&addr(5), 10),
        Err(TransferError::UnknownAccount)
    );
}

#[test]
fn create_account_refuses_a_taken_address() {
    let mut ledger = TokenLedger::new();
    assert!(ledger.create_account(&addr(5), &addr(6)));
    assert!(!ledger.create_account(&addr(5), &addr(7)));
}

#[test]
fn record_encode_decode_round_trip() {
    let rec = vault_test::vault::Vault {
        authority: addr(1),
        token_account: addr(2),
        bump: 254,
    };
    let bytes = vault_test::record::encode_vault(&rec);
    assert_eq!(bytes.len(), 73);
    assert_eq!(vault_test::record::decode_vault(&bytes), Some(rec));
}

#[test]
fn record_decode_rejects_wrong_length() {
    let rec = vault_test::vault::Vault {
        authority: addr(1),
        token_account: addr(2),
        bump: 7,
    };
    let mut bytes = vault_test::record::encode_vault(&rec);
    bytes.pop();
    assert_eq!(vault_test::record::decode_vault(&bytes), None);
}

#[test]
fn record_decode_rejects_wrong_tag() {
    let rec = vault_test::vault::Vault {
        authority: addr(1),
        token_account: addr(2),
        bump: 7,
    };
    let mut bytes = vault_test::record::encode_vault(&rec);
    bytes[0] = bytes[0].wrapping_add(1);
    assert_eq!(vault_test::record::decode_vault(&bytes), None);
}

#[test]
fn record_layout_is_tag_then_fields() {
    let rec = vault_test::vault::Vault {
        authority: addr(9),
        token_account: addr(10),
        bump: 200,
    };
    let bytes = vault_test::record::encode_vault(&rec);
    assert_eq!(&bytes[0..8], b"vaultrec");
    assert_eq!(&bytes[8..40], &[9u8; 32]);
    assert_eq!(&bytes[40..72], &[10u8; 32]);
    assert_eq!(bytes[72], 200);
}
