//! Off-ledger contract handling for the gatekeeper.
//!
//! The contract verifier validates a fetched escrow account — its
//! presence, its decoded state, and the recorded gatekeeper — before a
//! worker trusts it.  This module also parses operator-supplied identity
//! keys from their base58 form and builds the spend message that charges
//! a contract.

use vstd::prelude::*;

use crate::data::{spec_decode, ContractData, CONTRACT_SIZE};
use vstd::bytes::spec_u64_to_le_bytes;

use crate::instruction::{AccountMetaView, Instruction, Message};
use crate::pubkey::{Pubkey, PUBKEY_SIZE};

verus! {

/// Errors raised while verifying a fetched escrow contract.
#[derive(Copy, Clone, PartialEq, Eq, Structural, Debug)]
pub enum CheckError {
    /// The contract account holds no data.
    NoData,
    /// The contract account's data does not decode as escrow state.
    DecodeError,
    /// The decoded gatekeeper is not the expected one.
    GatekeeperMismatch,
}

/// Errors raised while parsing an identity key from its base58 form.
#[derive(Copy, Clone, PartialEq, Eq, Structural, Debug)]
pub enum PubkeyError {
    /// The input is not the base58 form of a 32-byte key.
    InvalidRequest,
}

/// Validates a fetched escrow contract: the account must hold data, the
/// data must decode, and the recorded gatekeeper must be the expected
/// one.  On success yields the fetched balance and the decoded state;
/// until the next verification the caller works with that state, not
/// with re-fetched bytes.
pub fn check_contract(
    data: Option<Vec<u8>>,
    lamports: u64,
    gatekeeper_id: &Pubkey,
) -> (r: Result<(u64, ContractData), CheckError>)
    ensures
        match r {
            Ok((balance, contract_data)) => {
                &&& data is Some
                &&& data->0@.len() == CONTRACT_SIZE
                &&& contract_data@ == spec_decode(data->0@)
                &&& contract_data@.gatekeeper_id == gatekeeper_id@
                &&& balance == lamports
            },
            Err(CheckError::NoData) => data is None,
            Err(CheckError::DecodeError) => {
                &&& data is Some
                &&& data->0@.len() != CONTRACT_SIZE
            },
            Err(CheckError::GatekeeperMismatch) => {
                &&& data is Some
                &&& data->0@.len() == CONTRACT_SIZE
                &&& spec_decode(data->0@).gatekeeper_id != gatekeeper_id@
            },
        },
{
    let bytes = match data {
        Some(bytes) => bytes,
        None => {
            return Err(CheckError::NoData);
        },
    };
    let contract_data = match ContractData::from_bytes(bytes.as_slice()) {
        Ok(contract_data) => contract_data,
        Err(_) => {
            return Err(CheckError::DecodeError);
        },
    };
    if !(contract_data.gatekeeper_id == *gatekeeper_id) {
        return Err(CheckError::GatekeeperMismatch);
    }
    Ok((lamports, contract_data))
}

/// What `bs58::decode` yields for a string: the decoded bytes, or
/// nothing when the string is not valid base58.
pub uninterp spec fn base58_decoded(s: Seq<char>) -> Option<Seq<u8>>;

/// Relies on `bs58::decode(..).into_vec()` with the default (Bitcoin)
/// alphabet and no checksum: the outcome is a function of the input
/// string alone — the decoded bytes, or an error for an input that is
/// not valid base58.
#[verifier::external_body]
fn decode_base58(input: &str) -> (r: Option<Vec<u8>>)
    ensures
        match r {
            Some(bytes) => base58_decoded(input@) == Some(bytes@),
            None => base58_decoded(input@) is None,
        },
{
    bs58::decode(input).into_vec().ok()
}

/// Parses an identity key from its base58 form: accepts exactly the
/// strings that decode to 32 bytes, and rejects every other input with
/// one invalid-request error.
pub fn verify_pubkey(input: String) -> (r: Result<Pubkey, PubkeyError>)
    ensures
        match r {
            Ok(pk) => {
                &&& base58_decoded(input@) is Some
                &&& base58_decoded(input@)->0.len() == PUBKEY_SIZE
                &&& pk@ == base58_decoded(input@)->0
            },
            Err(e) => {
                &&& e == PubkeyError::InvalidRequest
                &&& (base58_decoded(input@) is None || base58_decoded(input@)->0.len()
                    != PUBKEY_SIZE)
            },
        },
{
    let decoded = match decode_base58(input.as_str()) {
        Some(decoded) => decoded,
        None => {
            return Err(PubkeyError::InvalidRequest);
        },
    };
    if decoded.len() != PUBKEY_SIZE {
        return Err(PubkeyError::InvalidRequest);
    }
    Ok(Pubkey::new(decoded.as_slice()))
}

/// Builds the one-instruction message that charges `amount` from the
/// contract to the provider, to be signed by the gatekeeper.
pub fn build_spend_message(
    program_id: &Pubkey,
    gatekeeper_id: &Pubkey,
    contract_pubkey: &Pubkey,
    provider_id: &Pubkey,
    amount: u64,
) -> (r: Message)
    ensures
        r@.len() == 1,
        r@[0].program_id == program_id@,
        r@[0].data == seq![2u8] + spec_u64_to_le_bytes(amount),
        r@[0].accounts =~= seq![
            AccountMetaView { pubkey: gatekeeper_id@, is_signer: true },
            AccountMetaView { pubkey: contract_pubkey@, is_signer: false },
            AccountMetaView { pubkey: provider_id@, is_signer: false },
        ],
{
    let instruction = crate::instruction::spend(
        program_id.clone(),
        gatekeeper_id,
        contract_pubkey,
        provider_id,
        amount,
    );
    let mut instructions: Vec<Instruction> = Vec::new();
    instructions.push(instruction);
    proof {
        assert(instructions@.map_values(|i: Instruction| i@)
            =~= seq![instructions@[0]@]);
    }
    Message { instructions }
}

} // verus!
