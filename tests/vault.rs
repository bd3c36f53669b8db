use quiz_vault::key::Pubkey;
use quiz_vault::vault::{_withdraw, Signer, Vault, VaultAccount, VaultError, Withdraw};

fn accounts(locked: bool, vault_lamports: u64, authority_lamports: u64) -> Withdraw {
    let authority = Pubkey::new_from_array([3u8; 32]);
    Withdraw {
        vault_authority: Signer { key: authority, lamports: authority_lamports },
        vault: VaultAccount {
            key: Pubkey::new_from_array([9u8; 32]),
            lamports: vault_lamports,
            data: Vault { vault_authority: authority, locked },
        },
    }
}

#[test]
fn locked_vault_refuses_any_amount() {
    for amount in [0u64, 1, 500, 1000, u64::MAX] {
        let mut ctx = accounts(true, 1000, 50);
        assert_eq!(_withdraw(&mut ctx, amount).map(|_| ()), Err(VaultError::VaultLocked));
        assert_eq!(ctx.vault.lamports, 1000);
        assert_eq!(ctx.vault_authority.lamports, 50);
    }
}

#[test]
fn amount_above_balance_is_refused() {
    let mut ctx = accounts(false, 1000, 50);
    assert_eq!(_withdraw(&mut ctx, 1001).map(|_| ()), Err(VaultError::InsufficientBalance));
    assert_eq!(ctx.vault.lamports, 1000);
    assert_eq!(ctx.vault_authority.lamports, 50);
    assert_eq!(_withdraw(&mut ctx, u64::MAX).map(|_| ()), Err(VaultError::InsufficientBalance));
}

#[test]
fn withdraw_moves_lamports_and_records_event() {
    let mut ctx = accounts(false, 1000, 50);
    let event = _withdraw(&mut ctx, 400).unwrap();
    assert_eq!(ctx.vault.lamports, 600);
    assert_eq!(ctx.vault_authority.lamports, 450);
    assert_eq!(event.amount, 400);
    assert!(event.vault_authority == Pubkey::new_from_array([3u8; 32]));
    assert!(event.vault == Pubkey::new_from_array([9u8; 32]));
}

#[test]
fn withdraw_of_whole_balance_and_of_zero() {
    let mut ctx = accounts(false, 1000, 0);
    assert_eq!(_withdraw(&mut ctx, 1000).unwrap().amount, 1000);
    assert_eq!(ctx.vault.lamports, 0);
    assert_eq!(ctx.vault_authority.lamports, 1000);
    assert_eq!(_withdraw(&mut ctx, 0).unwrap().amount, 0);
    assert_eq!(ctx.vault.lamports, 0);
    assert_eq!(ctx.vault_authority.lamports, 1000);
}

#[test]
fn other_signer_is_refused_first() {
    let mut ctx = accounts(true, 10, 5);
    ctx.vault_authority.key = Pubkey::new_from_array([4u8; 32]);
    assert_eq!(_withdraw(&mut ctx, 20).map(|_| ()), Err(VaultError::ConstraintHasOne));
    assert_eq!(ctx.vault.lamports, 10);
    assert_eq!(ctx.vault_authority.lamports, 5);
    ctx.vault.data.locked = false;
    assert_eq!(_withdraw(&mut ctx, 1).map(|_| ()), Err(VaultError::ConstraintHasOne));
    assert_eq!(ctx.vault.lamports, 10);
}

#[test]
fn authority_overflow_changes_nothing() {
    let mut ctx = accounts(false, 1000, u64::MAX - 10);
    assert_eq!(_withdraw(&mut ctx, 11).map(|_| ()), Err(VaultError::Overflow));
    assert_eq!(ctx.vault.lamports, 1000);
    assert_eq!(ctx.vault_authority.lamports, u64::MAX - 10);
    assert_eq!(_withdraw(&mut ctx, 10).unwrap().amount, 10);
    assert_eq!(ctx.vault_authority.lamports, u64::MAX);
    assert_eq!(ctx.vault.lamports, 990);
}
