//! Precondition checks shared by the settlement program's opcodes.
//!
//! Each check either passes or fails the whole instruction with one
//! specific error kind, before any mutation.

use vstd::prelude::*;

use crate::account::Account;
use crate::pubkey::Pubkey;
use crate::result::{ProgramError, ProgramResult};
use crate::AccountType;

verus! {

/// Fails with `InvalidInput` when fewer than `n` accounts were supplied.
pub fn expect_n_accounts(info: &Vec<Account>, n: usize) -> (r: ProgramResult)
    ensures
        r is Ok <==> info@.len() >= n,
        r is Err ==> r->Err_0 == ProgramError::InvalidInput,
{
    if info.len() < n {
        Err(ProgramError::InvalidInput)
    } else {
        Ok(())
    }
}

/// Fails with `MissingSigner` when the account did not sign the
/// instruction.
pub fn expect_signed(account: &Account) -> (r: ProgramResult)
    ensures
        r is Ok <==> account.is_signer,
        r is Err ==> r->Err_0 == ProgramError::MissingSigner,
{
    if !account.is_signer {
        return Err(ProgramError::MissingSigner);
    }
    Ok(())
}

/// Fails with `InvalidAccount` when the account is not owned by `key`.
pub fn expect_owned_by(account: &Account, key: &Pubkey) -> (r: ProgramResult)
    ensures
        r is Ok <==> account.owner@ == key@,
        r is Err ==> r->Err_0 == ProgramError::InvalidAccount,
{
    if !(account.owner == *key) {
        return Err(ProgramError::InvalidAccount);
    }
    Ok(())
}

/// The account type denoted by an account's data: the tag read from its
/// first byte, or `Invalid` when the account holds no data at all.
pub open spec fn spec_account_type(data: Seq<u8>) -> AccountType {
    if data.len() == 0 {
        AccountType::Invalid
    } else {
        AccountType::spec_from_byte(data[0])
    }
}

/// Fails with `InvalidAccountType` when the tag in the account's data does
/// not denote `account_type`; an account without data never matches.
pub fn expect_account_type(account: &Account, account_type: AccountType) -> (r: ProgramResult)
    ensures
        r is Ok <==> spec_account_type(account@.data) == account_type,
        r is Err ==> r->Err_0 == ProgramError::InvalidAccountType,
{
    if account.data.len() == 0 {
        if account_type == AccountType::Invalid {
            return Ok(());
        }
        return Err(ProgramError::InvalidAccountType);
    }
    let tag = AccountType::from(account.data[0]);
    if !(tag == account_type) {
        return Err(ProgramError::InvalidAccountType);
    }
    Ok(())
}

/// Fails with `AccountNotNew` when the account's data does not carry the
/// `Unset` tag, i.e. the account was already initialized.
pub fn expect_new_account(account: &Account) -> (r: ProgramResult)
    ensures
        r is Ok <==> spec_account_type(account@.data) == AccountType::Unset,
        r is Err ==> r->Err_0 == ProgramError::AccountNotNew,
{
    match expect_account_type(account, AccountType::Unset) {
        Ok(()) => Ok(()),
        Err(_) => Err(ProgramError::AccountNotNew),
    }
}

/// Fails with `InvalidKey` when the account's address is not `key`.
pub fn expect_key(account: &Account, key: &Pubkey) -> (r: ProgramResult)
    ensures
        r is Ok <==> account.key@ == key@,
        r is Err ==> r->Err_0 == ProgramError::InvalidKey,
{
    if !(account.key == *key) {
        return Err(ProgramError::InvalidKey);
    }
    Ok(())
}

/// Fails with `AccountDataTooSmall` when the data holds fewer than
/// `min_size` bytes.
pub fn expect_min_size(data: &[u8], min_size: usize) -> (r: ProgramResult)
    ensures
        r is Ok <==> data@.len() >= min_size,
        r is Err ==> r->Err_0 == ProgramError::AccountDataTooSmall,
{
    if data.len() < min_size {
        return Err(ProgramError::AccountDataTooSmall);
    }
    Ok(())
}

} // verus!
