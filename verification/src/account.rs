//! The settlement program's model of a ledger account.
//!
//! The ledger is an externally-owned key-to-account mapping; one
//! instruction hands the program an ordered list of these accounts, each
//! with its address, signer flag, owning program, native balance and
//! data bytes.

use vstd::prelude::*;

use crate::pubkey::Pubkey;

verus! {

/// One ledger account as seen by a single program invocation.
pub struct Account {
    /// The account's address.
    pub key: Pubkey,
    /// Whether this account's identity cryptographically authorized the
    /// current instruction.
    pub is_signer: bool,
    /// The program that owns (may mutate) this account.
    pub owner: Pubkey,
    /// The account's native balance.
    pub lamports: u64,
    /// The account's data bytes.
    pub data: Vec<u8>,
}

/// Mathematical model of an [`Account`].
#[verifier::ext_equal]
pub struct AccountView {
    pub key: Seq<u8>,
    pub is_signer: bool,
    pub owner: Seq<u8>,
    pub lamports: u64,
    pub data: Seq<u8>,
}

impl View for Account {
    type V = AccountView;

    open spec fn view(&self) -> AccountView {
        AccountView {
            key: self.key@,
            is_signer: self.is_signer,
            owner: self.owner@,
            lamports: self.lamports,
            data: self.data@,
        }
    }
}

impl Account {
    /// Well-formedness: address and owner are well-formed identity keys.
    pub open spec fn wf(&self) -> bool {
        &&& self.key.wf()
        &&& self.owner.wf()
    }
}

/// The models of a list of accounts.
pub open spec fn views(accounts: Seq<Account>) -> Seq<AccountView> {
    accounts.map_values(|a: Account| a@)
}

/// The total native balance held by a list of accounts.
pub open spec fn sum_lamports(accounts: Seq<AccountView>) -> int
    decreases accounts.len(),
{
    if accounts.len() == 0 {
        0
    } else {
        accounts[0].lamports + sum_lamports(accounts.skip(1))
    }
}

/// The total balance never decreases below any single account's balance:
/// each account's balance is bounded by the total.
pub proof fn lemma_sum_lamports_bounds(accounts: Seq<AccountView>, i: int)
    requires
        0 <= i < accounts.len(),
    ensures
        accounts[i].lamports <= sum_lamports(accounts),
        sum_lamports(accounts) >= 0,
    decreases accounts.len(),
{
    lemma_sum_lamports_nonneg(accounts.skip(1));
    if i > 0 {
        lemma_sum_lamports_bounds(accounts.skip(1), i - 1);
    } else {
        lemma_sum_lamports_nonneg(accounts.skip(1));
    }
}

/// The total balance is never negative.
pub proof fn lemma_sum_lamports_nonneg(accounts: Seq<AccountView>)
    ensures
        sum_lamports(accounts) >= 0,
    decreases accounts.len(),
{
    if accounts.len() > 0 {
        lemma_sum_lamports_nonneg(accounts.skip(1));
    }
}

/// Two distinct accounts' balances together are bounded by the total.
pub proof fn lemma_sum_lamports_pair(accounts: Seq<AccountView>, i: int, j: int)
    requires
        0 <= i < accounts.len(),
        0 <= j < accounts.len(),
        i != j,
    ensures
        accounts[i].lamports + accounts[j].lamports <= sum_lamports(accounts),
    decreases accounts.len(),
{
    if i == 0 {
        lemma_sum_lamports_bounds(accounts.skip(1), j - 1);
    } else if j == 0 {
        lemma_sum_lamports_bounds(accounts.skip(1), i - 1);
    } else {
        lemma_sum_lamports_pair(accounts.skip(1), i - 1, j - 1);
    }
}

/// Replacing one account changes the total by the difference of the two
/// balances.
pub proof fn lemma_sum_lamports_update(accounts: Seq<AccountView>, i: int, a: AccountView)
    requires
        0 <= i < accounts.len(),
    ensures
        sum_lamports(accounts.update(i, a))
            == sum_lamports(accounts) - accounts[i].lamports + a.lamports,
    decreases accounts.len(),
{
    if i == 0 {
        assert(accounts.update(0, a).skip(1) =~= accounts.skip(1));
    } else {
        assert(accounts.update(i, a).skip(1) =~= accounts.skip(1).update(i - 1, a));
        lemma_sum_lamports_update(accounts.skip(1), i - 1, a);
    }
}

} // verus!
