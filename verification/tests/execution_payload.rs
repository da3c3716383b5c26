use ethereum_consensus::execution_payload::{
    apply_execution_payload, check_execution_payload, process_execution_payload,
    transactions_root, withdrawal_root, withdrawals_root, ExecutionEngine,
};
use ethereum_consensus::helpers::{compute_timestamp_at_slot, get_current_epoch, get_randao_mix};
use ethereum_consensus::types::{
    BeaconState, Context, Error, Eth1Data, ExecutionPayload, ExecutionPayloadHeader,
    InvalidExecutionPayload, InvalidOperation, Withdrawal, MAX_EFFECTIVE_BALANCE,
};
use sha2::{Digest, Sha256};

struct Engine {
    accept: bool,
}

impl ExecutionEngine for Engine {
    fn verify_and_notify_new_payload(&self, _payload: &ExecutionPayload) -> Result<(), Error> {
        if self.accept {
            Ok(())
        } else {
            Err(Error::ExecutionEngine)
        }
    }
}

fn context() -> Context {
    Context {
        genesis_slot: 0,
        slots_per_epoch: 32,
        seconds_per_slot: 12,
        max_deposits: 16,
        max_effective_balance: MAX_EFFECTIVE_BALANCE,
    }
}

fn header() -> ExecutionPayloadHeader {
    ExecutionPayloadHeader {
        parent_hash: vec![0; 32],
        fee_recipient: vec![0; 20],
        state_root: vec![0; 32],
        receipts_root: vec![0; 32],
        logs_bloom: vec![0; 256],
        prev_randao: vec![0; 32],
        block_number: 0,
        gas_limit: 0,
        gas_used: 0,
        timestamp: 0,
        extra_data: vec![],
        base_fee_per_gas: vec![0; 32],
        block_hash: vec![9; 32],
        transactions_root: vec![0; 32],
        withdrawals_root: vec![0; 32],
    }
}

/// A state at slot 330 (epoch 10) with four randao mixes; mix `i` is all `i`.
fn state() -> BeaconState {
    BeaconState {
        genesis_time: 1_000,
        slot: 330,
        eth1_data: Eth1Data { deposit_root: vec![0; 32], deposit_count: 0, block_hash: vec![0; 32] },
        eth1_deposit_index: 0,
        validators: vec![],
        balances: vec![],
        randao_mixes: (0u8..4).map(|i| vec![i; 32]).collect(),
        latest_execution_payload_header: header(),
        next_withdrawal_index: 0,
        next_withdrawal_validator_index: 0,
    }
}

/// A payload that passes the checks against `state()`.
fn payload() -> ExecutionPayload {
    ExecutionPayload {
        parent_hash: vec![9; 32],
        fee_recipient: vec![3; 20],
        state_root: vec![4; 32],
        receipts_root: vec![5; 32],
        logs_bloom: vec![6; 256],
        prev_randao: vec![2; 32],
        block_number: 77,
        gas_limit: 30_000_000,
        gas_used: 21_000,
        timestamp: 1_000 + 330 * 12,
        extra_data: vec![7, 7],
        base_fee_per_gas: vec![8; 32],
        block_hash: vec![10; 32],
        transactions: vec![vec![1, 2, 3], vec![0xff; 40]],
        withdrawals: vec![Withdrawal { index: 5, validator_index: 2, address: vec![0xab; 20], amount: 1_000 }],
    }
}

fn hash(a: &[u8], b: &[u8]) -> Vec<u8> {
    let mut h = Sha256::new();
    h.update(a);
    h.update(b);
    h.finalize().to_vec()
}

fn chunk(x: u64) -> Vec<u8> {
    let mut c = x.to_le_bytes().to_vec();
    c.resize(32, 0);
    c
}

/// The Merkle root of `leaves` padded with zero chunks to `width` leaves.
fn merkle(mut leaves: Vec<Vec<u8>>, width: usize) -> Vec<u8> {
    leaves.resize(width, vec![0; 32]);
    while leaves.len() > 1 {
        leaves = leaves.chunks(2).map(|p| hash(&p[0], &p[1])).collect();
    }
    leaves.pop().unwrap()
}

fn expected_withdrawal_root(w: &Withdrawal) -> Vec<u8> {
    let mut address = w.address.clone();
    address.resize(32, 0);
    merkle(vec![chunk(w.index as u64), chunk(w.validator_index as u64), address, chunk(w.amount)], 4)
}

fn expected_withdrawals_root(ws: &[Withdrawal], limit: usize) -> Vec<u8> {
    let roots = ws.iter().map(expected_withdrawal_root).collect();
    hash(&merkle(roots, limit), &chunk(ws.len() as u64))
}

fn expected_transactions_root(txs: &[Vec<u8>], max_bytes: usize, limit: usize) -> Vec<u8> {
    let roots = txs
        .iter()
        .map(|t| {
            let chunks = t.chunks(32).map(|c| {
                let mut c = c.to_vec();
                c.resize(32, 0);
                c
            });
            hash(&merkle(chunks.collect(), max_bytes / 32), &chunk(t.len() as u64))
        })
        .collect();
    hash(&merkle(roots, limit), &chunk(txs.len() as u64))
}

#[test]
fn withdrawal_root_is_the_root_of_its_fields() {
    let w = Withdrawal { index: 5, validator_index: 2, address: vec![0xab; 20], amount: 1_000 };
    assert_eq!(withdrawal_root(&w).unwrap(), expected_withdrawal_root(&w));
}

#[test]
fn withdrawals_root_mixes_in_the_length() {
    let ws = vec![
        Withdrawal { index: 5, validator_index: 2, address: vec![0xab; 20], amount: 1_000 },
        Withdrawal { index: 6, validator_index: 9, address: vec![0x01; 20], amount: 1 },
    ];
    assert_eq!(withdrawals_root::<16>(&ws).unwrap(), expected_withdrawals_root(&ws, 16));
    assert_eq!(withdrawals_root::<16>(&vec![]).unwrap(), expected_withdrawals_root(&[], 16));
}

#[test]
fn transactions_root_roots_each_transaction() {
    let txs = vec![vec![1, 2, 3], vec![0xff; 40]];
    assert_eq!(transactions_root::<64, 4>(&txs).unwrap(), expected_transactions_root(&txs, 64, 4));
}

#[test]
fn accepted_payload_becomes_the_latest_header() {
    let mut s = state();
    let p = payload();
    process_execution_payload::<64, 4, 16, Engine>(&mut s, &p, &Engine { accept: true }, &context())
        .unwrap();
    let h = &s.latest_execution_payload_header;
    assert_eq!(h.parent_hash, p.parent_hash);
    assert_eq!(h.fee_recipient, p.fee_recipient);
    assert_eq!(h.state_root, p.state_root);
    assert_eq!(h.receipts_root, p.receipts_root);
    assert_eq!(h.logs_bloom, p.logs_bloom);
    assert_eq!(h.prev_randao, p.prev_randao);
    assert_eq!(h.block_number, 77);
    assert_eq!(h.gas_limit, 30_000_000);
    assert_eq!(h.gas_used, 21_000);
    assert_eq!(h.timestamp, p.timestamp);
    assert_eq!(h.extra_data, p.extra_data);
    assert_eq!(h.base_fee_per_gas, p.base_fee_per_gas);
    assert_eq!(h.block_hash, p.block_hash);
    assert_eq!(h.transactions_root, expected_transactions_root(&p.transactions, 64, 4));
    assert_eq!(h.withdrawals_root, expected_withdrawals_root(&p.withdrawals, 16));
    let mut rest = s.clone();
    rest.latest_execution_payload_header = header();
    assert_eq!(rest, state());
}

#[test]
fn the_recorded_payload_is_the_next_parent() {
    let mut s = state();
    let p = payload();
    process_execution_payload::<64, 4, 16, Engine>(&mut s, &p, &Engine { accept: true }, &context())
        .unwrap();
    let mut next = payload();
    next.parent_hash = p.block_hash.clone();
    assert_eq!(check_execution_payload(&s, &next, &context()), Ok(()));
}

#[test]
fn a_payload_cannot_be_applied_twice() {
    let mut s = state();
    let p = payload();
    process_execution_payload::<64, 4, 16, Engine>(&mut s, &p, &Engine { accept: true }, &context())
        .unwrap();
    let again = process_execution_payload::<64, 4, 16, Engine>(
        &mut s,
        &p,
        &Engine { accept: true },
        &context(),
    );
    assert_eq!(
        again,
        Err(Error::InvalidOperation(InvalidOperation::ExecutionPayload(
            InvalidExecutionPayload::InvalidParentHash { provided: vec![9; 32], expected: vec![10; 32] }
        )))
    );
}

#[test]
fn wrong_parent_hash_is_refused() {
    let mut s = state();
    let mut p = payload();
    p.parent_hash = vec![1; 32];
    let r = process_execution_payload::<64, 4, 16, Engine>(&mut s, &p, &Engine { accept: true }, &context());
    assert_eq!(
        r,
        Err(Error::InvalidOperation(InvalidOperation::ExecutionPayload(
            InvalidExecutionPayload::InvalidParentHash { provided: vec![1; 32], expected: vec![9; 32] }
        )))
    );
    assert_eq!(s, state());
}

#[test]
fn wrong_prev_randao_is_refused() {
    let mut s = state();
    let mut p = payload();
    p.prev_randao = vec![1; 32];
    let r = process_execution_payload::<64, 4, 16, Engine>(&mut s, &p, &Engine { accept: true }, &context());
    assert_eq!(
        r,
        Err(Error::InvalidOperation(InvalidOperation::ExecutionPayload(
            InvalidExecutionPayload::InvalidPrevRandao { provided: vec![1; 32], expected: vec![2; 32] }
        )))
    );
    assert_eq!(s, state());
}

#[test]
fn wrong_timestamp_is_refused() {
    let mut s = state();
    let mut p = payload();
    p.timestamp = 5;
    let r = process_execution_payload::<64, 4, 16, Engine>(&mut s, &p, &Engine { accept: true }, &context());
    assert_eq!(
        r,
        Err(Error::InvalidOperation(InvalidOperation::ExecutionPayload(
            InvalidExecutionPayload::InvalidTimestamp { provided: 5, expected: 1_000 + 330 * 12 }
        )))
    );
    assert_eq!(s, state());
}

#[test]
fn a_slot_before_genesis_is_refused() {
    let mut s = state();
    let mut c = context();
    c.genesis_slot = 1_000;
    c.slots_per_epoch = 110;
    let mut p = payload();
    p.prev_randao = vec![3; 32];
    let r = process_execution_payload::<64, 4, 16, Engine>(&mut s, &p, &Engine { accept: true }, &c);
    assert_eq!(r, Err(Error::Underflow));
}

#[test]
fn engine_refusal_leaves_the_state() {
    let mut s = state();
    let p = payload();
    let r = process_execution_payload::<64, 4, 16, Engine>(&mut s, &p, &Engine { accept: false }, &context());
    assert_eq!(r, Err(Error::ExecutionEngine));
    assert_eq!(s, state());
}

#[test]
fn apply_passes_the_engine_answer_on() {
    let mut s = state();
    let p = payload();
    assert_eq!(apply_execution_payload::<64, 4, 16>(&mut s, &p, Err(Error::Overflow)), Err(Error::Overflow));
    assert_eq!(s, state());
    assert_eq!(apply_execution_payload::<64, 4, 16>(&mut s, &p, Ok(())), Ok(()));
    assert_eq!(s.latest_execution_payload_header.block_hash, vec![10; 32]);
}

#[test]
fn timestamps_and_epochs() {
    let s = state();
    assert_eq!(compute_timestamp_at_slot(&s, 10, &context()), Ok(1_120));
    let mut c = context();
    c.genesis_slot = 11;
    assert_eq!(compute_timestamp_at_slot(&s, 10, &c), Err(Error::Underflow));
    c.genesis_slot = 0;
    c.seconds_per_slot = u64::MAX;
    assert_eq!(compute_timestamp_at_slot(&s, 2, &c), Err(Error::Overflow));
    assert_eq!(get_current_epoch(&s, &context()), 10);
    assert_eq!(get_randao_mix(&s, 10), &vec![2u8; 32]);
    assert_eq!(get_randao_mix(&s, 7), &vec![3u8; 32]);
}

#[test]
fn a_wrong_parent_is_reported_before_the_epoch_is_read() {
    let s = state();
    let mut c = context();
    c.slots_per_epoch = 0;
    let mut p = payload();
    p.parent_hash = vec![1; 32];
    assert_eq!(
        check_execution_payload(&s, &p, &c),
        Err(Error::InvalidOperation(InvalidOperation::ExecutionPayload(
            InvalidExecutionPayload::InvalidParentHash { provided: vec![1; 32], expected: vec![9; 32] }
        )))
    );
}
