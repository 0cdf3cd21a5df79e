//! Planning for a fleet of escrow contracts.
//!
//! The benchmark driver starts one settlement worker per contract.  The
//! plan below pairs each initiator with a contract address and a
//! gatekeeper, rotating through the gatekeepers so that consecutive
//! contracts use different ones; the driver then signs and submits one
//! initialize plan per contract.

use vstd::prelude::*;

use crate::data::CONTRACT_SIZE;
use crate::instruction::{initialize, AccountMetaView, InitializePlan};
use crate::pubkey::Pubkey;

verus! {

/// One plan sets up one contract: created by `initiator_id` with
/// `lamports` and the exact contract size, owned by the program, and
/// initialized with the three identities in instruction order.
pub open spec fn spec_plan_for(
    plan: InitializePlan,
    program_id: Seq<u8>,
    initiator_id: Seq<u8>,
    contract_pubkey: Seq<u8>,
    gatekeeper_id: Seq<u8>,
    provider_id: Seq<u8>,
    lamports: u64,
) -> bool {
    &&& plan.create.from@ == initiator_id
    &&& plan.create.to@ == contract_pubkey
    &&& plan.create.lamports == lamports
    &&& plan.create.space == CONTRACT_SIZE as u64
    &&& plan.create.owner@ == program_id
    &&& plan.instruction@.program_id == program_id
    &&& plan.instruction@.data == seq![1u8]
    &&& plan.instruction@.accounts == seq![
        AccountMetaView { pubkey: initiator_id, is_signer: true },
        AccountMetaView { pubkey: contract_pubkey, is_signer: false },
        AccountMetaView { pubkey: gatekeeper_id, is_signer: false },
        AccountMetaView { pubkey: provider_id, is_signer: false },
    ]
}

/// Builds one initialize plan per initiator, assigning contract `i` the
/// gatekeeper at index `(i + 1)` modulo the gatekeeper count.
pub fn initialize_contracts(
    client_ids: &Vec<Pubkey>,
    contract_pubkeys: &Vec<Pubkey>,
    program_id: &Pubkey,
    lamports: u64,
    provider: &Pubkey,
    gatekeeper_ids: &Vec<Pubkey>,
) -> (r: Vec<InitializePlan>)
    requires
        gatekeeper_ids@.len() > 0,
        contract_pubkeys@.len() == client_ids@.len(),
    ensures
        r@.len() == client_ids@.len(),
        forall|i: int|
            0 <= i < r@.len() ==> #[trigger] spec_plan_for(
                r@[i],
                program_id@,
                client_ids@[i]@,
                contract_pubkeys@[i]@,
                gatekeeper_ids@[(i + 1) % (gatekeeper_ids@.len() as int)]@,
                provider@,
                lamports,
            ),
{
    let mut contracts: Vec<InitializePlan> = Vec::new();
    let mut i: usize = 0;
    while i < client_ids.len()
        invariant
            i <= client_ids@.len(),
            contracts@.len() == i,
            gatekeeper_ids@.len() > 0,
            contract_pubkeys@.len() == client_ids@.len(),
            forall|j: int|
                0 <= j < i ==> #[trigger] spec_plan_for(
                    contracts@[j],
                    program_id@,
                    client_ids@[j]@,
                    contract_pubkeys@[j]@,
                    gatekeeper_ids@[(j + 1) % (gatekeeper_ids@.len() as int)]@,
                    provider@,
                    lamports,
                ),
        decreases client_ids@.len() - i,
    {
        let gatekeeper_index = (i + 1) % gatekeeper_ids.len();
        let plan = initialize(
            program_id,
            &client_ids[i],
            &contract_pubkeys[i],
            &gatekeeper_ids[gatekeeper_index],
            provider,
            lamports,
        );
        contracts.push(plan);
        i = i + 1;
    }
    contracts
}

} // verus!
