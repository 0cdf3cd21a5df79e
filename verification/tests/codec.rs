use bandwidth_prepay::data::{CodecError, ContractData, CONTRACT_SIZE};
use bandwidth_prepay::instruction::{
    initialize, refund, spend, BandwidthPrepayInstruction,
};
use bandwidth_prepay::pubkey::{Pubkey, PUBKEY_SIZE};
use bandwidth_prepay::result::ProgramError;
use bandwidth_prepay::util::expect_min_size;
use bandwidth_prepay::AccountType;

fn key(fill: u8) -> Pubkey {
    Pubkey::new(&[fill; 32])
}

#[test]
fn test_contract_size() {
    assert_eq!(CONTRACT_SIZE, 97);
    assert_eq!(PUBKEY_SIZE, 32);
}

#[test]
fn test_encode_decode_round_trip() {
    let initiator = key(1);
    let gatekeeper = key(2);
    let provider = key(3);
    let mut bytes = vec![0u8; CONTRACT_SIZE];
    ContractData::copy_to_bytes(&mut bytes, &initiator, &gatekeeper, &provider);
    assert_eq!(bytes.len(), CONTRACT_SIZE);
    assert_eq!(AccountType::from(bytes[0]), AccountType::Contract);
    let decoded = ContractData::from_bytes(&bytes).unwrap();
    assert_eq!(decoded.initiator_id, initiator);
    assert_eq!(decoded.gatekeeper_id, gatekeeper);
    assert_eq!(decoded.provider_id, provider);
}

#[test]
fn test_encode_decode_round_trip_equal_identities() {
    let id = key(7);
    let mut bytes = vec![0u8; CONTRACT_SIZE];
    ContractData::copy_to_bytes(&mut bytes, &id, &id, &id);
    let decoded = ContractData::from_bytes(&bytes).unwrap();
    assert_eq!(decoded.initiator_id, id);
    assert_eq!(decoded.gatekeeper_id, id);
    assert_eq!(decoded.provider_id, id);
}

#[test]
fn test_encode_leaves_trailing_bytes() {
    let mut bytes = vec![0xAAu8; CONTRACT_SIZE + 5];
    ContractData::copy_to_bytes(&mut bytes, &key(1), &key(2), &key(3));
    assert_eq!(bytes.len(), CONTRACT_SIZE + 5);
    assert_eq!(&bytes[CONTRACT_SIZE..], &[0xAA; 5]);
}

#[test]
fn test_decode_rejects_wrong_sizes() {
    assert_eq!(ContractData::from_bytes(&[]), Err(CodecError::InvalidSize));
    assert_eq!(
        ContractData::from_bytes(&vec![1u8; CONTRACT_SIZE - 1]),
        Err(CodecError::InvalidSize)
    );
    assert_eq!(
        ContractData::from_bytes(&vec![1u8; CONTRACT_SIZE + 1]),
        Err(CodecError::InvalidSize)
    );
    assert!(ContractData::from_bytes(&vec![1u8; CONTRACT_SIZE]).is_ok());
}

#[test]
fn test_decode_ignores_tag_byte() {
    let mut bytes = vec![0u8; CONTRACT_SIZE];
    ContractData::copy_to_bytes(&mut bytes, &key(1), &key(2), &key(3));
    bytes[0] = 0xFF;
    let decoded = ContractData::from_bytes(&bytes).unwrap();
    assert_eq!(decoded.gatekeeper_id, key(2));
}

#[test]
fn test_account_type_from_byte() {
    assert_eq!(AccountType::from(0u8), AccountType::Unset);
    assert_eq!(AccountType::from(1u8), AccountType::Contract);
    assert_eq!(AccountType::from(2u8), AccountType::Invalid);
    assert_eq!(AccountType::from(255u8), AccountType::Invalid);
}

#[test]
fn test_instruction_opcodes() {
    assert_eq!(BandwidthPrepayInstruction::InitializeAccount.opcode(), 1);
    assert_eq!(BandwidthPrepayInstruction::Spend.opcode(), 2);
    assert_eq!(BandwidthPrepayInstruction::Refund.opcode(), 3);
    assert_eq!(
        BandwidthPrepayInstruction::try_from(1),
        Ok(BandwidthPrepayInstruction::InitializeAccount)
    );
    assert_eq!(BandwidthPrepayInstruction::try_from(2), Ok(BandwidthPrepayInstruction::Spend));
    assert_eq!(BandwidthPrepayInstruction::try_from(3), Ok(BandwidthPrepayInstruction::Refund));
    assert_eq!(BandwidthPrepayInstruction::try_from(0), Err(()));
    assert_eq!(BandwidthPrepayInstruction::try_from(4), Err(()));
}

#[test]
fn test_spend_instruction_layout() {
    let instruction = spend(key(9), &key(2), &key(4), &key(3), 300);
    assert_eq!(instruction.program_id, key(9));
    assert_eq!(instruction.data.len(), 9);
    assert_eq!(instruction.data[0], 2);
    assert_eq!(&instruction.data[1..], &300u64.to_le_bytes());
    assert_eq!(instruction.accounts.len(), 3);
    assert_eq!(instruction.accounts[0].pubkey, key(2));
    assert!(instruction.accounts[0].is_signer);
    assert_eq!(instruction.accounts[1].pubkey, key(4));
    assert!(!instruction.accounts[1].is_signer);
    assert_eq!(instruction.accounts[2].pubkey, key(3));
    assert!(!instruction.accounts[2].is_signer);
}

#[test]
fn test_refund_instruction_layout() {
    let instruction = refund(key(9), &key(2), &key(4), &key(1));
    assert_eq!(instruction.data, vec![3u8]);
    assert_eq!(instruction.accounts.len(), 3);
    assert_eq!(instruction.accounts[0].pubkey, key(2));
    assert!(instruction.accounts[0].is_signer);
    assert_eq!(instruction.accounts[2].pubkey, key(1));
}

#[test]
fn test_initialize_plan_layout() {
    let plan = initialize(&key(9), &key(1), &key(4), &key(2), &key(3), 500);
    assert_eq!(plan.create.from, key(1));
    assert_eq!(plan.create.to, key(4));
    assert_eq!(plan.create.lamports, 500);
    assert_eq!(plan.create.space, CONTRACT_SIZE as u64);
    assert_eq!(plan.create.owner, key(9));
    assert_eq!(plan.instruction.data, vec![1u8]);
    assert_eq!(plan.instruction.accounts.len(), 4);
    assert!(plan.instruction.accounts[0].is_signer);
    assert_eq!(plan.instruction.accounts[0].pubkey, key(1));
    assert_eq!(plan.instruction.accounts[1].pubkey, key(4));
    assert_eq!(plan.instruction.accounts[2].pubkey, key(2));
    assert_eq!(plan.instruction.accounts[3].pubkey, key(3));
}

#[test]
fn test_expect_min_size() {
    assert_eq!(expect_min_size(&[0u8; 97], 97), Ok(()));
    assert_eq!(expect_min_size(&[0u8; 98], 97), Ok(()));
    assert_eq!(
        expect_min_size(&[0u8; 96], 97),
        Err(ProgramError::AccountDataTooSmall)
    );
}

#[test]
fn test_program_error_codes_and_messages() {
    assert_eq!(ProgramError::AccountDataTooSmall.code(), 1);
    assert_eq!(ProgramError::MissingSigner.code(), 10);
    assert_eq!(ProgramError::BalanceTooLow.message(), "Error: BalanceTooLow");
    assert_eq!(ProgramError::InvalidCommand.message(), "Error: InvalidCommand");
}
