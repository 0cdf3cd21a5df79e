//! The settlement program: an instruction-driven state machine over
//! escrow accounts.
//!
//! One invocation receives an ordered account list and an
//! opcode-plus-payload byte string, validates every precondition, and
//! either applies the opcode's balance and data mutations atomically or
//! fails with a single error kind before any mutation.  The intended
//! outcome of every invocation is given by the spec-level interpreter
//! [`spec_process_instruction`]; the executable program is proved to
//! implement it exactly, mutating nothing on any error path.

use vstd::prelude::*;
use vstd::bytes::{spec_u64_from_le_bytes, u64_from_le_bytes};
use vstd::slice::slice_subrange;

use crate::account::{sum_lamports, views, Account, AccountView};
use crate::account::{lemma_sum_lamports_pair, lemma_sum_lamports_update};
use crate::data::{spec_decode, spec_encode, ContractData, CONTRACT_SIZE};
use crate::instruction::BandwidthPrepayInstruction;
use crate::pubkey::Pubkey;
use crate::result::{ProgramError, ProgramResult};
use crate::util::{
    expect_account_type, expect_key, expect_min_size, expect_n_accounts, expect_new_account,
    expect_owned_by, expect_signed, spec_account_type,
};
use crate::AccountType;

verus! {

/// Outcome of the initialize opcode: requires four accounts — initiator
/// (signer), contract, gatekeeper, provider — with the contract account
/// owned by the program, large enough, and not yet initialized; writes
/// the encoded escrow state into the contract account's data.  No
/// balance moves.
pub open spec fn spec_initialize_account(
    program_id: Seq<u8>,
    accounts: Seq<AccountView>,
) -> Result<Seq<AccountView>, ProgramError> {
    if accounts.len() < 4 {
        Err(ProgramError::InvalidInput)
    } else if !accounts[0].is_signer {
        Err(ProgramError::MissingSigner)
    } else if accounts[1].owner != program_id {
        Err(ProgramError::InvalidAccount)
    } else if accounts[1].data.len() < CONTRACT_SIZE {
        Err(ProgramError::AccountDataTooSmall)
    } else if spec_account_type(accounts[1].data) != AccountType::Unset {
        Err(ProgramError::AccountNotNew)
    } else {
        Ok(
            accounts.update(
                1,
                AccountView {
                    data: spec_encode(accounts[0].key, accounts[2].key, accounts[3].key)
                        + accounts[1].data.skip(CONTRACT_SIZE as int),
                    ..accounts[1]
                },
            ),
        )
    }
}

/// Outcome of the spend opcode: requires three accounts — gatekeeper
/// (signer), contract, provider — with the contract active, owned by the
/// program and holding well-formed escrow data whose recorded gatekeeper
/// and provider match the supplied accounts; the payload must be exactly
/// 8 bytes and the decoded amount must not exceed the contract balance.
/// Moves the amount from the contract to the provider.
pub open spec fn spec_spend(
    program_id: Seq<u8>,
    accounts: Seq<AccountView>,
    payload: Seq<u8>,
) -> Result<Seq<AccountView>, ProgramError> {
    if accounts.len() < 3 {
        Err(ProgramError::InvalidInput)
    } else if !accounts[0].is_signer {
        Err(ProgramError::MissingSigner)
    } else if accounts[1].owner != program_id {
        Err(ProgramError::InvalidAccount)
    } else if spec_account_type(accounts[1].data) != AccountType::Contract {
        Err(ProgramError::InvalidAccountType)
    } else if accounts[1].data.len() != CONTRACT_SIZE {
        Err(ProgramError::InvalidInput)
    } else if accounts[0].key != spec_decode(accounts[1].data).gatekeeper_id {
        Err(ProgramError::InvalidKey)
    } else if accounts[2].key != spec_decode(accounts[1].data).provider_id {
        Err(ProgramError::InvalidKey)
    } else if payload.len() != 8 {
        Err(ProgramError::InvalidSpendData)
    } else if accounts[1].lamports < spec_u64_from_le_bytes(payload) {
        Err(ProgramError::BalanceTooLow)
    } else {
        let amount = spec_u64_from_le_bytes(payload);
        Ok(
            accounts.update(
                1,
                AccountView { lamports: (accounts[1].lamports - amount) as u64, ..accounts[1] },
            ).update(
                2,
                AccountView { lamports: (accounts[2].lamports + amount) as u64, ..accounts[2] },
            ),
        )
    }
}

/// Outcome of the refund opcode: requires three accounts — gatekeeper
/// (signer), contract, initiator — checked as for spend except that the
/// third account must match the recorded initiator.  Moves the contract's
/// entire remaining balance to the initiator and leaves the contract
/// balance at zero; the account data (and so its active state) is
/// unchanged.
pub open spec fn spec_refund(
    program_id: Seq<u8>,
    accounts: Seq<AccountView>,
) -> Result<Seq<AccountView>, ProgramError> {
    if accounts.len() < 3 {
        Err(ProgramError::InvalidInput)
    } else if !accounts[0].is_signer {
        Err(ProgramError::MissingSigner)
    } else if accounts[1].owner != program_id {
        Err(ProgramError::InvalidAccount)
    } else if spec_account_type(accounts[1].data) != AccountType::Contract {
        Err(ProgramError::InvalidAccountType)
    } else if accounts[1].data.len() != CONTRACT_SIZE {
        Err(ProgramError::InvalidInput)
    } else if accounts[0].key != spec_decode(accounts[1].data).gatekeeper_id {
        Err(ProgramError::InvalidKey)
    } else if accounts[2].key != spec_decode(accounts[1].data).initiator_id {
        Err(ProgramError::InvalidKey)
    } else {
        Ok(
            accounts.update(
                2,
                AccountView {
                    lamports: (accounts[2].lamports + accounts[1].lamports) as u64,
                    ..accounts[2]
                },
            ).update(1, AccountView { lamports: 0u64, ..accounts[1] }),
        )
    }
}

/// Outcome of one program invocation: byte 0 selects the opcode, the
/// rest is its payload; an unrecognized opcode fails with
/// `InvalidCommand`.
pub open spec fn spec_process_instruction(
    program_id: Seq<u8>,
    accounts: Seq<AccountView>,
    data: Seq<u8>,
) -> Result<Seq<AccountView>, ProgramError>
    recommends
        data.len() >= 1,
{
    match BandwidthPrepayInstruction::spec_try_from(data[0]) {
        Ok(BandwidthPrepayInstruction::InitializeAccount) => spec_initialize_account(
            program_id,
            accounts,
        ),
        Ok(BandwidthPrepayInstruction::Spend) => spec_spend(program_id, accounts, data.skip(1)),
        Ok(BandwidthPrepayInstruction::Refund) => spec_refund(program_id, accounts),
        Err(_) => Err(ProgramError::InvalidCommand),
    }
}


/// For any amount within the contract's balance, a correctly signed and
/// addressed spend reduces the contract balance by the amount, increases
/// the provider balance by the same amount, and keeps the sum of all
/// balances invariant.
pub proof fn lemma_spend_transfers_amount(
    program_id: Seq<u8>,
    accounts: Seq<AccountView>,
    payload: Seq<u8>,
)
    requires
        accounts.len() >= 3,
        sum_lamports(accounts) <= u64::MAX,
        accounts[0].is_signer,
        accounts[1].owner == program_id,
        spec_account_type(accounts[1].data) == AccountType::Contract,
        accounts[1].data.len() == CONTRACT_SIZE,
        accounts[0].key == spec_decode(accounts[1].data).gatekeeper_id,
        accounts[2].key == spec_decode(accounts[1].data).provider_id,
        payload.len() == 8,
        spec_u64_from_le_bytes(payload) <= accounts[1].lamports,
    ensures
        spec_spend(program_id, accounts, payload) is Ok,
        ({
            let updated = spec_spend(program_id, accounts, payload)->Ok_0;
            let amount = spec_u64_from_le_bytes(payload);
            &&& updated[1].lamports == accounts[1].lamports - amount
            &&& updated[2].lamports == accounts[2].lamports + amount
            &&& sum_lamports(updated) == sum_lamports(accounts)
        }),
{
    lemma_sum_lamports_pair(accounts, 1, 2);
    let amount = spec_u64_from_le_bytes(payload);
    let mid = accounts.update(
        1,
        AccountView { lamports: (accounts[1].lamports - amount) as u64, ..accounts[1] },
    );
    let updated = mid.update(
        2,
        AccountView { lamports: (accounts[2].lamports + amount) as u64, ..accounts[2] },
    );
    lemma_sum_lamports_update(accounts, 1, mid[1]);
    lemma_sum_lamports_update(mid, 2, updated[2]);
}

/// A spend whose amount exceeds the contract balance fails with
/// `BalanceTooLow`; the program mutates nothing on any error, so both
/// balances are left unchanged.
pub proof fn lemma_spend_balance_too_low(
    program_id: Seq<u8>,
    accounts: Seq<AccountView>,
    payload: Seq<u8>,
)
    requires
        accounts.len() >= 3,
        accounts[0].is_signer,
        accounts[1].owner == program_id,
        spec_account_type(accounts[1].data) == AccountType::Contract,
        accounts[1].data.len() == CONTRACT_SIZE,
        accounts[0].key == spec_decode(accounts[1].data).gatekeeper_id,
        accounts[2].key == spec_decode(accounts[1].data).provider_id,
        payload.len() == 8,
        spec_u64_from_le_bytes(payload) > accounts[1].lamports,
    ensures
        spec_spend(program_id, accounts, payload)
            == Err::<Seq<AccountView>, _>(ProgramError::BalanceTooLow),
{
}

/// A spend or refund whose first account is not the recorded gatekeeper
/// signing the instruction is rejected: with no signature it fails with
/// `MissingSigner`, and with a signature from any other identity it fails
/// with `InvalidKey`.  Either way the program mutates nothing.
pub proof fn lemma_unauthorized_signer_rejected(
    program_id: Seq<u8>,
    accounts: Seq<AccountView>,
    payload: Seq<u8>,
)
    requires
        accounts.len() >= 3,
        accounts[1].owner == program_id,
        spec_account_type(accounts[1].data) == AccountType::Contract,
        accounts[1].data.len() == CONTRACT_SIZE,
        !(accounts[0].is_signer && accounts[0].key == spec_decode(
            accounts[1].data,
        ).gatekeeper_id),
    ensures
        !accounts[0].is_signer ==> spec_spend(program_id, accounts, payload)
            == Err::<Seq<AccountView>, _>(ProgramError::MissingSigner),
        !accounts[0].is_signer ==> spec_refund(program_id, accounts)
            == Err::<Seq<AccountView>, _>(ProgramError::MissingSigner),
        accounts[0].is_signer ==> spec_spend(program_id, accounts, payload)
            == Err::<Seq<AccountView>, _>(ProgramError::InvalidKey),
        accounts[0].is_signer ==> spec_refund(program_id, accounts)
            == Err::<Seq<AccountView>, _>(ProgramError::InvalidKey),
{
}

/// A correctly signed and addressed refund moves the contract's entire
/// remaining balance to the recorded initiator and leaves the contract
/// balance at exactly zero; the account data is unchanged, so the
/// account remains active (not unset) after the refund, and the sum of
/// all balances is invariant.
pub proof fn lemma_refund_returns_remainder(program_id: Seq<u8>, accounts: Seq<AccountView>)
    requires
        accounts.len() >= 3,
        sum_lamports(accounts) <= u64::MAX,
        accounts[0].is_signer,
        accounts[1].owner == program_id,
        spec_account_type(accounts[1].data) == AccountType::Contract,
        accounts[1].data.len() == CONTRACT_SIZE,
        accounts[0].key == spec_decode(accounts[1].data).gatekeeper_id,
        accounts[2].key == spec_decode(accounts[1].data).initiator_id,
    ensures
        spec_refund(program_id, accounts) is Ok,
        ({
            let updated = spec_refund(program_id, accounts)->Ok_0;
            &&& updated[1].lamports == 0
            &&& updated[2].lamports == accounts[2].lamports + accounts[1].lamports
            &&& updated[1].data == accounts[1].data
            &&& spec_account_type(updated[1].data) == AccountType::Contract
            &&& sum_lamports(updated) == sum_lamports(accounts)
        }),
{
    lemma_sum_lamports_pair(accounts, 1, 2);
    let mid = accounts.update(
        2,
        AccountView {
            lamports: (accounts[2].lamports + accounts[1].lamports) as u64,
            ..accounts[2]
        },
    );
    let updated = mid.update(1, AccountView { lamports: 0u64, ..accounts[1] });
    lemma_sum_lamports_update(accounts, 2, mid[2]);
    lemma_sum_lamports_update(mid, 1, updated[1]);
}

/// A spend whose payload is not exactly 8 bytes fails with
/// `InvalidSpendData`, regardless of the account balances.
pub proof fn lemma_spend_bad_payload_rejected(
    program_id: Seq<u8>,
    accounts: Seq<AccountView>,
    payload: Seq<u8>,
)
    requires
        accounts.len() >= 3,
        accounts[0].is_signer,
        accounts[1].owner == program_id,
        spec_account_type(accounts[1].data) == AccountType::Contract,
        accounts[1].data.len() == CONTRACT_SIZE,
        accounts[0].key == spec_decode(accounts[1].data).gatekeeper_id,
        accounts[2].key == spec_decode(accounts[1].data).provider_id,
        payload.len() != 8,
    ensures
        spec_spend(program_id, accounts, payload)
            == Err::<Seq<AccountView>, _>(ProgramError::InvalidSpendData),
{
}

/// Runs one program invocation on the supplied account list.
///
/// The total balance bound is the ledger's supply invariant: the sum of
/// all account balances fits the balance word, so the transfers below
/// cannot overflow.  On success the accounts hold exactly the outcome of
/// [`spec_process_instruction`]; on error the accounts are left
/// byte-for-byte unchanged.
pub fn process_instruction(
    program_id: &Pubkey,
    accounts: &mut Vec<Account>,
    data: &[u8],
) -> (r: ProgramResult)
    requires
        data@.len() >= 1,
        sum_lamports(views(old(accounts)@)) <= u64::MAX,
    ensures
        match r {
            Ok(()) => spec_process_instruction(program_id@, views(old(accounts)@), data@)
                == Ok::<_, ProgramError>(views(final(accounts)@)),
            Err(e) => {
                &&& final(accounts)@ == old(accounts)@
                &&& spec_process_instruction(program_id@, views(old(accounts)@), data@)
                    == Err::<Seq<AccountView>, _>(e)
            },
        },
{
    let opcode = data[0];
    let payload = slice_subrange(data, 1, data.len());
    let instruction = match BandwidthPrepayInstruction::try_from(opcode) {
        Ok(instruction) => instruction,
        Err(_) => {
            return Err(ProgramError::InvalidCommand);
        },
    };
    match instruction {
        BandwidthPrepayInstruction::InitializeAccount => initialize_account(program_id, accounts),
        BandwidthPrepayInstruction::Spend => spend(program_id, accounts, payload),
        BandwidthPrepayInstruction::Refund => refund(program_id, accounts),
    }
}

/// Executes the initialize opcode; see [`spec_initialize_account`].
fn initialize_account(program_id: &Pubkey, accounts: &mut Vec<Account>) -> (r: ProgramResult)
    ensures
        match r {
            Ok(()) => spec_initialize_account(program_id@, views(old(accounts)@))
                == Ok::<_, ProgramError>(views(final(accounts)@)),
            Err(e) => {
                &&& final(accounts)@ == old(accounts)@
                &&& spec_initialize_account(program_id@, views(old(accounts)@))
                    == Err::<Seq<AccountView>, _>(e)
            },
        },
{
    if let Err(e) = expect_n_accounts(accounts, 4) {
        return Err(e);
    }
    if let Err(e) = expect_signed(&accounts[0]) {
        return Err(e);
    }
    if let Err(e) = expect_owned_by(&accounts[1], program_id) {
        return Err(e);
    }
    if let Err(e) = expect_min_size(accounts[1].data.as_slice(), CONTRACT_SIZE) {
        return Err(e);
    }
    if let Err(e) = expect_new_account(&accounts[1]) {
        return Err(e);
    }

    let initiator_id = accounts[0].key.clone();
    let gatekeeper_id = accounts[2].key.clone();
    let provider_id = accounts[3].key.clone();
    proof {
        use_type_invariant(&initiator_id);
        use_type_invariant(&gatekeeper_id);
        use_type_invariant(&provider_id);
    }
    let mut contract_account = accounts.remove(1);
    ContractData::copy_to_bytes(
        &mut contract_account.data,
        &initiator_id,
        &gatekeeper_id,
        &provider_id,
    );
    accounts.insert(1, contract_account);
    proof {
        assert(views(accounts@)[1].data =~= spec_initialize_account(
            program_id@,
            views(old(accounts)@),
        )->Ok_0[1].data);
        assert(views(accounts@) =~~= spec_initialize_account(
            program_id@,
            views(old(accounts)@),
        )->Ok_0);
    }
    Ok(())
}

/// Executes the spend opcode; see [`spec_spend`].
fn spend(program_id: &Pubkey, accounts: &mut Vec<Account>, payload: &[u8]) -> (r: ProgramResult)
    requires
        sum_lamports(views(old(accounts)@)) <= u64::MAX,
    ensures
        match r {
            Ok(()) => spec_spend(program_id@, views(old(accounts)@), payload@)
                == Ok::<_, ProgramError>(views(final(accounts)@)),
            Err(e) => {
                &&& final(accounts)@ == old(accounts)@
                &&& spec_spend(program_id@, views(old(accounts)@), payload@)
                    == Err::<Seq<AccountView>, _>(e)
            },
        },
{
    if let Err(e) = expect_n_accounts(accounts, 3) {
        return Err(e);
    }
    if let Err(e) = expect_signed(&accounts[0]) {
        return Err(e);
    }
    if let Err(e) = expect_owned_by(&accounts[1], program_id) {
        return Err(e);
    }
    if let Err(e) = expect_account_type(&accounts[1], AccountType::Contract) {
        return Err(e);
    }

    let contract_data = match ContractData::from_bytes(accounts[1].data.as_slice()) {
        Ok(contract_data) => contract_data,
        Err(_) => {
            return Err(ProgramError::InvalidInput);
        },
    };
    if let Err(e) = expect_key(&accounts[0], &contract_data.gatekeeper_id) {
        return Err(e);
    }
    if let Err(e) = expect_key(&accounts[2], &contract_data.provider_id) {
        return Err(e);
    }

    if payload.len() != 8 {
        return Err(ProgramError::InvalidSpendData);
    }
    let amount = u64_from_le_bytes(payload);
    if accounts[1].lamports < amount {
        return Err(ProgramError::BalanceTooLow);
    }

    proof {
        lemma_sum_lamports_pair(views(accounts@), 1, 2);
    }
    let contract_lamports = accounts[1].lamports;
    let provider_lamports = accounts[2].lamports;
    set_lamports(accounts, 1, contract_lamports - amount);
    set_lamports(accounts, 2, provider_lamports + amount);
    proof {
        assert(views(accounts@) =~= spec_spend(
            program_id@,
            views(old(accounts)@),
            payload@,
        )->Ok_0);
    }
    Ok(())
}

/// Executes the refund opcode; see [`spec_refund`].
fn refund(program_id: &Pubkey, accounts: &mut Vec<Account>) -> (r: ProgramResult)
    requires
        sum_lamports(views(old(accounts)@)) <= u64::MAX,
    ensures
        match r {
            Ok(()) => spec_refund(program_id@, views(old(accounts)@))
                == Ok::<_, ProgramError>(views(final(accounts)@)),
            Err(e) => {
                &&& final(accounts)@ == old(accounts)@
                &&& spec_refund(program_id@, views(old(accounts)@))
                    == Err::<Seq<AccountView>, _>(e)
            },
        },
{
    if let Err(e) = expect_n_accounts(accounts, 3) {
        return Err(e);
    }
    if let Err(e) = expect_signed(&accounts[0]) {
        return Err(e);
    }
    if let Err(e) = expect_owned_by(&accounts[1], program_id) {
        return Err(e);
    }
    if let Err(e) = expect_account_type(&accounts[1], AccountType::Contract) {
        return Err(e);
    }

    let contract_data = match ContractData::from_bytes(accounts[1].data.as_slice()) {
        Ok(contract_data) => contract_data,
        Err(_) => {
            return Err(ProgramError::InvalidInput);
        },
    };
    if let Err(e) = expect_key(&accounts[0], &contract_data.gatekeeper_id) {
        return Err(e);
    }
    if let Err(e) = expect_key(&accounts[2], &contract_data.initiator_id) {
        return Err(e);
    }

    proof {
        lemma_sum_lamports_pair(views(accounts@), 1, 2);
    }
    let contract_lamports = accounts[1].lamports;
    let initiator_lamports = accounts[2].lamports;
    set_lamports(accounts, 2, initiator_lamports + contract_lamports);
    set_lamports(accounts, 1, 0);
    proof {
        assert(views(accounts@) =~= spec_refund(program_id@, views(old(accounts)@))->Ok_0);
    }
    Ok(())
}

/// Sets one account's balance, leaving every other field and account
/// unchanged.
fn set_lamports(accounts: &mut Vec<Account>, i: usize, lamports: u64)
    requires
        i < old(accounts)@.len(),
    ensures
        final(accounts)@.len() == old(accounts)@.len(),
        views(final(accounts)@) == views(old(accounts)@).update(
            i as int,
            AccountView { lamports, ..views(old(accounts)@)[i as int] },
        ),
    {
        let mut account = accounts.remove(i);
        account.lamports = lamports;
        accounts.insert(i, account);
        proof {
            assert(views(accounts@) =~= views(old(accounts)@).update(
                i as int,
                AccountView { lamports, ..views(old(accounts)@)[i as int] },
            ));
        }
    }


} // verus!
