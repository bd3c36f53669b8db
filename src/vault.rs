//! A lamport vault: its authority withdraws from it while it is unlocked.
use vstd::prelude::*;
use crate::key::Pubkey;

verus! {

/// The vault record: who controls it, and whether withdrawals are barred.
#[derive(Clone, Copy, Debug)]
pub struct Vault {
    pub vault_authority: Pubkey,
    pub locked: bool,
}

/// The vault's account: its address, its lamport balance and its record.
#[derive(Clone, Copy, Debug)]
pub struct VaultAccount {
    pub key: Pubkey,
    pub lamports: u64,
    pub data: Vault,
}

/// An account that signed the instruction, with its lamport balance.
#[derive(Clone, Copy, Debug)]
pub struct Signer {
    pub key: Pubkey,
    pub lamports: u64,
}

/// The accounts of the withdraw instruction.
#[derive(Clone, Copy, Debug)]
pub struct Withdraw {
    pub vault_authority: Signer,
    pub vault: VaultAccount,
}

/// The record of a completed withdrawal.
#[derive(Clone, Copy, Debug)]
pub struct WithdrawEvent {
    pub amount: u64,
    pub vault_authority: Pubkey,
    pub vault: Pubkey,
}

/// Why a withdrawal was refused.
#[derive(Clone, Copy, Debug, PartialEq, Eq, Structural)]
pub enum VaultError {
    /// The vault is locked.
    VaultLocked,
    /// The vault holds fewer lamports than requested.
    InsufficientBalance,
    /// A balance would leave the range of `u64`.
    Overflow,
    /// The signer is not the authority stored in the vault.
    ConstraintHasOne,
}

/// Whether the signer is the authority that the vault names.
pub open spec fn is_bound(ctx: Withdraw) -> bool {
    ctx.vault.data.vault_authority.bytes@ == ctx.vault_authority.key.bytes@
}

/// What withdrawing `amount` on the accounts `ctx` yields, guards checked in order.
pub open spec fn withdraw_outcome(ctx: Withdraw, amount: u64) -> Result<WithdrawEvent, VaultError> {
    if !is_bound(ctx) {
        Err(VaultError::ConstraintHasOne)
    } else if ctx.vault.data.locked {
        Err(VaultError::VaultLocked)
    } else if ctx.vault.lamports < amount {
        Err(VaultError::InsufficientBalance)
    } else if ctx.vault_authority.lamports + amount > u64::MAX {
        Err(VaultError::Overflow)
    } else {
        Ok(WithdrawEvent { amount, vault_authority: ctx.vault_authority.key, vault: ctx.vault.key })
    }
}

/// The accounts after `amount` lamports moved from the vault to its authority.
pub open spec fn transferred(ctx: Withdraw, amount: u64) -> Withdraw {
    Withdraw {
        vault_authority: Signer {
            key: ctx.vault_authority.key,
            lamports: (ctx.vault_authority.lamports + amount) as u64,
        },
        vault: VaultAccount {
            key: ctx.vault.key,
            lamports: (ctx.vault.lamports - amount) as u64,
            data: ctx.vault.data,
        },
    }
}

/// Moves `amount` lamports from the vault to its authority and returns the
/// event that records it. The signer must be the vault's authority, the vault
/// unlocked, and its balance at least `amount`; otherwise, or where the
/// authority's balance would overflow, nothing changes and the error says why.
pub fn _withdraw(ctx: &mut Withdraw, amount: u64) -> (r: Result<WithdrawEvent, VaultError>)
    ensures
        r == withdraw_outcome(*old(ctx), amount),
        r is Ok ==> *final(ctx) == transferred(*old(ctx), amount),
        r is Err ==> *final(ctx) == *old(ctx),
        !is_bound(*old(ctx)) ==> r == Err::<WithdrawEvent, VaultError>(
            VaultError::ConstraintHasOne,
        ) && *final(ctx) == *old(ctx),
        is_bound(*old(ctx)) && old(ctx).vault.data.locked ==> r == Err::<
            WithdrawEvent,
            VaultError,
        >(VaultError::VaultLocked) && final(ctx).vault.lamports == old(ctx).vault.lamports,
        is_bound(*old(ctx)) && !old(ctx).vault.data.locked && amount > old(ctx).vault.lamports
            ==> r == Err::<WithdrawEvent, VaultError>(VaultError::InsufficientBalance)
            && final(ctx).vault.lamports == old(ctx).vault.lamports,
        is_bound(*old(ctx)) && !old(ctx).vault.data.locked && amount <= old(ctx).vault.lamports
            && old(ctx).vault_authority.lamports + amount <= u64::MAX ==> r == Ok::<
            WithdrawEvent,
            VaultError,
        >(
            (WithdrawEvent {
                amount,
                vault_authority: old(ctx).vault_authority.key,
                vault: old(ctx).vault.key,
            }),
        ) && final(ctx).vault.lamports == old(ctx).vault.lamports - amount
            && final(ctx).vault_authority.lamports == old(ctx).vault_authority.lamports + amount,
{
    if ctx.vault.data.vault_authority != ctx.vault_authority.key {
        return Err(VaultError::ConstraintHasOne);
    }
    if ctx.vault.data.locked {
        return Err(VaultError::VaultLocked);
    }
    if ctx.vault.lamports < amount {
        return Err(VaultError::InsufficientBalance);
    }
    let vault_lamports = match ctx.vault.lamports.checked_sub(amount) {
        Some(v) => v,
        None => {
            return Err(VaultError::Overflow);
        },
    };
    let authority_lamports = match ctx.vault_authority.lamports.checked_add(amount) {
        Some(v) => v,
        None => {
            return Err(VaultError::Overflow);
        },
    };
    ctx.vault.lamports = vault_lamports;
    ctx.vault_authority.lamports = authority_lamports;
    Ok(WithdrawEvent { amount, vault_authority: ctx.vault_authority.key, vault: ctx.vault.key })
}

} // verus!
