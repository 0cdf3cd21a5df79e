//! Metered-usage escrow settlement library.
//!
//! An escrow contract binds three identities: an initiator who deposits
//! funds, a gatekeeper who measures consumption and authorizes payouts,
//! and a provider who receives them.  The library holds the fixed-layout
//! account codec, the ledger-resident settlement program (an instruction
//! driven state machine over escrow accounts), the instruction builders,
//! the off-ledger contract verifier, and the gatekeeper's settlement
//! worker with its usage accumulator and submission queue.

use vstd::prelude::*;

pub mod account;
pub mod accumulator;
pub mod bandwidth_tps;
pub mod contract;
pub mod data;
pub mod instruction;
pub mod processor;
pub mod pubkey;
pub mod result;
pub mod submitter;
pub mod util;
pub mod worker;

verus! {

/// Tag stored in the first byte of an escrow account's data, discriminating
/// whether the account has been initialized.  Any tag other than the two
/// known values is `Invalid` and rejects all operations.
#[derive(Copy, Clone, PartialEq, Eq, Structural, Debug)]
pub enum AccountType {
    Unset,
    Contract,
    Invalid,
}

impl AccountType {
    /// The tag byte that encodes this account type; `Invalid` has no single
    /// encoding, so it is mapped to a byte that decodes back to `Invalid`.
    pub open spec fn spec_tag_byte(self) -> u8 {
        match self {
            AccountType::Unset => 0u8,
            AccountType::Contract => 1u8,
            AccountType::Invalid => 2u8,
        }
    }

    /// The account type denoted by a tag byte.
    pub open spec fn spec_from_byte(value: u8) -> AccountType {
        if value == 0u8 {
            AccountType::Unset
        } else if value == 1u8 {
            AccountType::Contract
        } else {
            AccountType::Invalid
        }
    }

    /// The tag byte written when this account type is stored.
    pub fn tag_byte(self) -> (r: u8)
        ensures
            r == self.spec_tag_byte(),
    {
        match self {
            AccountType::Unset => 0u8,
            AccountType::Contract => 1u8,
            AccountType::Invalid => 2u8,
        }
    }
}

impl From<u8> for AccountType {
    fn from(value: u8) -> (r: AccountType) {
        if value == 0 {
            AccountType::Unset
        } else if value == 1 {
            AccountType::Contract
        } else {
            AccountType::Invalid
        }
    }
}

impl vstd::std_specs::convert::FromSpecImpl<u8> for AccountType {
    open spec fn obeys_from_spec() -> bool {
        true
    }

    open spec fn from_spec(value: u8) -> AccountType {
        AccountType::spec_from_byte(value)
    }
}

} // verus!
