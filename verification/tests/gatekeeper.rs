use bandwidth_prepay::accumulator::Accumulator;
use bandwidth_prepay::contract::{
    build_spend_message, check_contract, verify_pubkey, CheckError, PubkeyError,
};
use bandwidth_prepay::data::{ContractData, CONTRACT_SIZE};
use bandwidth_prepay::pubkey::Pubkey;
use bandwidth_prepay::submitter::SubmitQueue;
use bandwidth_prepay::worker::{ConnectionParams, Worker, WorkerAction, WorkerEvent, WorkerState};

fn key(fill: u8) -> Pubkey {
    Pubkey::new(&[fill; 32])
}

fn encoded_contract(initiator: &Pubkey, gatekeeper: &Pubkey, provider: &Pubkey) -> Vec<u8> {
    let mut bytes = vec![0u8; CONTRACT_SIZE];
    ContractData::copy_to_bytes(&mut bytes, initiator, gatekeeper, provider);
    bytes
}

fn params(contract: &Pubkey, fee_interval: u64) -> ConnectionParams {
    ConnectionParams {
        contract_pubkey: contract.clone(),
        destination: "127.0.0.1:1234".to_string(),
        fee_interval,
    }
}

#[test]
fn test_verify_pubkey() {
    let bytes: Vec<u8> = (0u8..32).collect();
    let pubkey = Pubkey::new(&bytes);
    let pubkey_str = bs58::encode(&bytes).into_string();
    let other_str = "randomString".to_string();
    let strange_str = "d_e_a_d.beef".to_string();
    let empty_str = "".to_string();
    assert_eq!(verify_pubkey(pubkey_str.to_string()).unwrap(), pubkey);
    assert_eq!(
        verify_pubkey(other_str.to_string()),
        Err(PubkeyError::InvalidRequest)
    );
    assert_eq!(
        verify_pubkey(strange_str.to_string()),
        Err(PubkeyError::InvalidRequest)
    );
    assert_eq!(
        verify_pubkey(empty_str.to_string()),
        Err(PubkeyError::InvalidRequest)
    );
}

#[test]
fn test_check_contract() {
    let alice = key(10);
    let gatekeeper = key(30);
    let provider = key(40);
    let data = encoded_contract(&alice, &gatekeeper, &provider);

    let expected_data = ContractData {
        gatekeeper_id: gatekeeper.clone(),
        provider_id: provider.clone(),
        initiator_id: alice.clone(),
    };

    assert_eq!(
        check_contract(Some(data.clone()), 500, &gatekeeper).unwrap(),
        (500, expected_data)
    );

    // The recorded gatekeeper does not match the expected one.
    assert_eq!(
        check_contract(Some(data.clone()), 500, &Pubkey::new(&vec![4; 32])),
        Err(CheckError::GatekeeperMismatch)
    );
    // An absent account carries no data.
    assert_eq!(check_contract(None, 500, &gatekeeper), Err(CheckError::NoData));
    // Malformed account bytes do not decode.
    assert_eq!(
        check_contract(Some(vec![1u8; CONTRACT_SIZE - 1]), 500, &gatekeeper),
        Err(CheckError::DecodeError)
    );
}

#[test]
fn test_build_spend_message_layout() {
    let message = build_spend_message(&key(9), &key(2), &key(4), &key(3), 1_000);
    assert_eq!(message.instructions.len(), 1);
    let instruction = &message.instructions[0];
    assert_eq!(instruction.program_id, key(9));
    assert_eq!(instruction.data[0], 2);
    assert_eq!(&instruction.data[1..], &1_000u64.to_le_bytes());
    assert_eq!(instruction.accounts[0].pubkey, key(2));
    assert!(instruction.accounts[0].is_signer);
    assert_eq!(instruction.accounts[1].pubkey, key(4));
    assert_eq!(instruction.accounts[2].pubkey, key(3));
}

#[test]
fn test_accumulator_record_and_flush() {
    let mut accumulator = Accumulator::default();
    assert_eq!(accumulator.owed_amount, 0);
    accumulator.record_usage(100, 3);
    accumulator.record_usage(50, 3);
    assert_eq!(accumulator.total_data_amount, 150);
    assert_eq!(accumulator.owed_amount, 450);
    let amount = accumulator.flush();
    assert_eq!(amount, 450);
    assert_eq!(accumulator.owed_amount, 0);
    assert_eq!(accumulator.total_data_amount, 150);
    // A second flush before any new usage yields nothing.
    assert_eq!(accumulator.flush(), 0);
}

#[test]
fn test_worker_lifecycle() {
    let contract = key(20);
    let gatekeeper = key(30);
    let data = encoded_contract(&key(10), &gatekeeper, &key(40));
    let contract_state = ContractData::from_bytes(&data).unwrap();

    let mut worker = Worker::new(params(&contract, 1000), 2, 100);
    assert_eq!(worker.state, WorkerState::Verifying);

    // Verification succeeds: the worker starts running with the observed
    // balance as the initiator's fund.
    let action = worker.step(WorkerEvent::Verified(500, contract_state));
    assert_eq!(action, WorkerAction::NoAction);
    assert_eq!(worker.state, WorkerState::Running);
    assert_eq!(worker.accumulator.initiator_fund, 500);

    // Usage accumulates; a fee tick flushes the owed amount as a spend.
    assert_eq!(worker.step(WorkerEvent::Usage(100)), WorkerAction::NoAction);
    assert_eq!(worker.step(WorkerEvent::Usage(24)), WorkerAction::NoAction);
    let action = worker.step(WorkerEvent::FeeTick);
    assert_eq!(action, WorkerAction::SubmitSpend(248));
    assert_eq!(worker.accumulator.owed_amount, 0);

    // A second fee tick with no new usage submits nothing.
    assert_eq!(worker.step(WorkerEvent::FeeTick), WorkerAction::NoAction);

    // The funding check requests a top-up only below the threshold.
    assert_eq!(worker.step(WorkerEvent::BalanceCheck(99)), WorkerAction::RequestTopUp);
    assert_eq!(worker.step(WorkerEvent::BalanceCheck(100)), WorkerAction::NoAction);

    // Termination: the final refund is issued, then the worker reports
    // its cumulative usage.
    assert_eq!(worker.step(WorkerEvent::Terminate), WorkerAction::SubmitRefund);
    assert_eq!(worker.state, WorkerState::ShuttingDown);
    assert_eq!(worker.step(WorkerEvent::FeeTick), WorkerAction::NoAction);
    assert_eq!(worker.state, WorkerState::Terminated);
    assert_eq!(worker.summary(), 124);
}

#[test]
fn test_worker_verification_failure_is_fatal() {
    let contract = key(20);
    let mut worker = Worker::new(params(&contract, 1000), 2, 100);
    let action = worker.step(WorkerEvent::VerifyFailed(CheckError::GatekeeperMismatch));
    assert_eq!(
        action,
        WorkerAction::ReportError(CheckError::GatekeeperMismatch)
    );
    assert_eq!(worker.state, WorkerState::Terminated);
    // Once terminated, nothing moves the worker again.
    assert_eq!(worker.step(WorkerEvent::Usage(10)), WorkerAction::NoAction);
    assert_eq!(worker.summary(), 0);
}

#[test]
fn test_submit_queue_is_fifo() {
    let mut queue = SubmitQueue::new();
    assert_eq!(queue.len(), 0);
    assert!(queue.dequeue().is_none());

    queue.enqueue(build_spend_message(&key(9), &key(2), &key(4), &key(3), 10));
    queue.enqueue(build_spend_message(&key(9), &key(2), &key(4), &key(3), 20));
    queue.enqueue(build_spend_message(&key(9), &key(2), &key(4), &key(3), 30));
    assert_eq!(queue.len(), 3);

    let first = queue.dequeue().unwrap();
    assert_eq!(&first.instructions[0].data[1..], &10u64.to_le_bytes());
    let second = queue.dequeue().unwrap();
    assert_eq!(&second.instructions[0].data[1..], &20u64.to_le_bytes());
    let third = queue.dequeue().unwrap();
    assert_eq!(&third.instructions[0].data[1..], &30u64.to_le_bytes());
    assert!(queue.dequeue().is_none());
}
