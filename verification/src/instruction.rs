//! Builders for the settlement program's instructions.
//!
//! Instruction wire format: byte 0 is the opcode (1 = initialize,
//! 2 = spend, 3 = refund); the remaining bytes are the opcode-specific
//! payload (spend: an 8-byte little-endian unsigned amount; the others:
//! none).  The required account list order is fixed per opcode.

use vstd::prelude::*;
use vstd::bytes::{spec_u64_to_le_bytes, u64_to_le_bytes};

use crate::data::CONTRACT_SIZE;
use crate::pubkey::Pubkey;

verus! {

/// The settlement program's opcodes.
#[derive(Copy, Clone, PartialEq, Eq, Structural, Debug)]
pub enum BandwidthPrepayInstruction {
    InitializeAccount,
    Spend,
    Refund,
}

impl BandwidthPrepayInstruction {
    /// The opcode byte of this instruction.
    pub open spec fn spec_opcode(self) -> u8 {
        match self {
            BandwidthPrepayInstruction::InitializeAccount => 1u8,
            BandwidthPrepayInstruction::Spend => 2u8,
            BandwidthPrepayInstruction::Refund => 3u8,
        }
    }

    /// The instruction denoted by an opcode byte, if any.
    pub open spec fn spec_try_from(value: u8) -> Result<BandwidthPrepayInstruction, ()> {
        if value == 1u8 {
            Ok(BandwidthPrepayInstruction::InitializeAccount)
        } else if value == 2u8 {
            Ok(BandwidthPrepayInstruction::Spend)
        } else if value == 3u8 {
            Ok(BandwidthPrepayInstruction::Refund)
        } else {
            Err(())
        }
    }

    /// The opcode byte of this instruction.
    pub fn opcode(self) -> (r: u8)
        ensures
            r == self.spec_opcode(),
    {
        match self {
            BandwidthPrepayInstruction::InitializeAccount => 1u8,
            BandwidthPrepayInstruction::Spend => 2u8,
            BandwidthPrepayInstruction::Refund => 3u8,
        }
    }

    /// Recognizes an opcode byte; any unrecognized byte is rejected.
    pub fn try_from(value: u8) -> (r: Result<BandwidthPrepayInstruction, ()>)
        ensures
            r == BandwidthPrepayInstruction::spec_try_from(value),
    {
        if value == 1 {
            Ok(BandwidthPrepayInstruction::InitializeAccount)
        } else if value == 2 {
            Ok(BandwidthPrepayInstruction::Spend)
        } else if value == 3 {
            Ok(BandwidthPrepayInstruction::Refund)
        } else {
            Err(())
        }
    }
}

/// One account referenced by an instruction: its address and whether it
/// must sign.
pub struct AccountMeta {
    pub pubkey: Pubkey,
    pub is_signer: bool,
}

/// Mathematical model of an [`AccountMeta`].
pub struct AccountMetaView {
    pub pubkey: Seq<u8>,
    pub is_signer: bool,
}

impl View for AccountMeta {
    type V = AccountMetaView;

    open spec fn view(&self) -> AccountMetaView {
        AccountMetaView { pubkey: self.pubkey@, is_signer: self.is_signer }
    }
}

/// One instruction addressed to a program: the program, the ordered
/// account list, and the opcode-plus-payload bytes.
pub struct Instruction {
    pub program_id: Pubkey,
    pub accounts: Vec<AccountMeta>,
    pub data: Vec<u8>,
}

/// Mathematical model of an [`Instruction`].
pub struct InstructionView {
    pub program_id: Seq<u8>,
    pub accounts: Seq<AccountMetaView>,
    pub data: Seq<u8>,
}

impl View for Instruction {
    type V = InstructionView;

    open spec fn view(&self) -> InstructionView {
        InstructionView {
            program_id: self.program_id@,
            accounts: self.accounts@.map_values(|m: AccountMeta| m@),
            data: self.data@,
        }
    }
}

/// An ordered list of instructions handed to the ledger for atomic
/// execution as one transaction.
pub struct Message {
    pub instructions: Vec<Instruction>,
}

impl View for Message {
    type V = Seq<InstructionView>;

    open spec fn view(&self) -> Seq<InstructionView> {
        self.instructions@.map_values(|i: Instruction| i@)
    }
}

/// A request to the ledger to create a new account before the settlement
/// program initializes it: the funding source, the new account's address,
/// its initial balance, its data size, and its owning program.
pub struct CreateAccountParams {
    pub from: Pubkey,
    pub to: Pubkey,
    pub lamports: u64,
    pub space: u64,
    pub owner: Pubkey,
}

/// The two steps that set up a new escrow contract: a ledger-level
/// account creation funded by the initiator, then the settlement
/// program's initialize instruction.
pub struct InitializePlan {
    pub create: CreateAccountParams,
    pub instruction: Instruction,
}

/// Builds the two-step plan that creates an escrow contract account of
/// exactly the contract size, owned by the program and funded with
/// `lamports` by the initiator, and then initializes it with the three
/// identities.
pub fn initialize(
    program_id: &Pubkey,
    initiator_id: &Pubkey,
    contract_pubkey: &Pubkey,
    gatekeeper_id: &Pubkey,
    provider_id: &Pubkey,
    lamports: u64,
) -> (r: InitializePlan)
    ensures
        r.create.from@ == initiator_id@,
        r.create.to@ == contract_pubkey@,
        r.create.lamports == lamports,
        r.create.space == CONTRACT_SIZE as u64,
        r.create.owner@ == program_id@,
        r.instruction@.program_id == program_id@,
        r.instruction@.data == seq![1u8],
        r.instruction@.accounts =~= seq![
            AccountMetaView { pubkey: initiator_id@, is_signer: true },
            AccountMetaView { pubkey: contract_pubkey@, is_signer: false },
            AccountMetaView { pubkey: gatekeeper_id@, is_signer: false },
            AccountMetaView { pubkey: provider_id@, is_signer: false },
        ],
{
    let space = CONTRACT_SIZE as u64;
    let create = CreateAccountParams {
        from: initiator_id.clone(),
        to: contract_pubkey.clone(),
        lamports,
        space,
        owner: program_id.clone(),
    };
    let instruction = initialize_account(
        program_id.clone(),
        initiator_id,
        contract_pubkey,
        gatekeeper_id,
        provider_id,
    );
    InitializePlan { create, instruction }
}

/// Builds the initialize instruction: opcode 1 with no payload, accounts
/// ordered initiator (signer), contract, gatekeeper, provider.
fn initialize_account(
    program_id: Pubkey,
    initiator_id: &Pubkey,
    contract_pubkey: &Pubkey,
    gatekeeper_id: &Pubkey,
    provider_id: &Pubkey,
) -> (r: Instruction)
    ensures
        r@.program_id == program_id@,
        r@.data == seq![1u8],
        r@.accounts =~= seq![
            AccountMetaView { pubkey: initiator_id@, is_signer: true },
            AccountMetaView { pubkey: contract_pubkey@, is_signer: false },
            AccountMetaView { pubkey: gatekeeper_id@, is_signer: false },
            AccountMetaView { pubkey: provider_id@, is_signer: false },
        ],
{
    let mut accounts: Vec<AccountMeta> = Vec::new();
    accounts.push(AccountMeta { pubkey: initiator_id.clone(), is_signer: true });
    accounts.push(AccountMeta { pubkey: contract_pubkey.clone(), is_signer: false });
    accounts.push(AccountMeta { pubkey: gatekeeper_id.clone(), is_signer: false });
    accounts.push(AccountMeta { pubkey: provider_id.clone(), is_signer: false });
    let mut data: Vec<u8> = Vec::new();
    data.push(BandwidthPrepayInstruction::InitializeAccount.opcode());
    proof {
        assert(data@ =~= seq![1u8]);
    }
    Instruction { program_id, accounts, data }
}

/// Builds the spend instruction: opcode 2 with the amount as an 8-byte
/// little-endian payload, accounts ordered gatekeeper (signer), contract,
/// provider.
pub fn spend(
    program_id: Pubkey,
    gatekeeper_id: &Pubkey,
    contract_pubkey: &Pubkey,
    provider_id: &Pubkey,
    amount: u64,
) -> (r: Instruction)
    ensures
        r@.program_id == program_id@,
        r@.data == seq![2u8] + spec_u64_to_le_bytes(amount),
        r@.data.len() == 9,
        r@.accounts =~= seq![
            AccountMetaView { pubkey: gatekeeper_id@, is_signer: true },
            AccountMetaView { pubkey: contract_pubkey@, is_signer: false },
            AccountMetaView { pubkey: provider_id@, is_signer: false },
        ],
{
    let mut accounts: Vec<AccountMeta> = Vec::new();
    accounts.push(AccountMeta { pubkey: gatekeeper_id.clone(), is_signer: true });
    accounts.push(AccountMeta { pubkey: contract_pubkey.clone(), is_signer: false });
    accounts.push(AccountMeta { pubkey: provider_id.clone(), is_signer: false });
    let mut data: Vec<u8> = Vec::new();
    data.push(BandwidthPrepayInstruction::Spend.opcode());
    let mut amount_bytes = u64_to_le_bytes(amount);
    data.append(&mut amount_bytes);
    proof {
        assert(data@ =~= seq![2u8] + spec_u64_to_le_bytes(amount));
    }
    Instruction { program_id, accounts, data }
}

/// Builds the refund instruction: opcode 3 with no payload, accounts
/// ordered gatekeeper (signer), contract, initiator.
pub fn refund(
    program_id: Pubkey,
    gatekeeper_id: &Pubkey,
    contract_pubkey: &Pubkey,
    initiator_id: &Pubkey,
) -> (r: Instruction)
    ensures
        r@.program_id == program_id@,
        r@.data == seq![3u8],
        r@.accounts =~= seq![
            AccountMetaView { pubkey: gatekeeper_id@, is_signer: true },
            AccountMetaView { pubkey: contract_pubkey@, is_signer: false },
            AccountMetaView { pubkey: initiator_id@, is_signer: false },
        ],
{
    let mut accounts: Vec<AccountMeta> = Vec::new();
    accounts.push(AccountMeta { pubkey: gatekeeper_id.clone(), is_signer: true });
    accounts.push(AccountMeta { pubkey: contract_pubkey.clone(), is_signer: false });
    accounts.push(AccountMeta { pubkey: initiator_id.clone(), is_signer: false });
    let mut data: Vec<u8> = Vec::new();
    data.push(BandwidthPrepayInstruction::Refund.opcode());
    proof {
        assert(data@ =~= seq![3u8]);
    }
    Instruction { program_id, accounts, data }
}

} // verus!
