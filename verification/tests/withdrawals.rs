use ethereum_consensus::helpers::decrease_balance;
use ethereum_consensus::types::{
    BeaconState, Context, Eth1Data, ExecutionPayload, ExecutionPayloadHeader, Validator,
    Withdrawal, MAX_EFFECTIVE_BALANCE,
};
use ethereum_consensus::withdrawals::{
    check_withdrawals_processable, get_expected_withdrawals, process_withdrawals,
    try_expected_withdrawals,
};

const FAR_FUTURE_EPOCH: u64 = u64::MAX;

fn credentials(prefix: u8, fill: u8) -> Vec<u8> {
    let mut c = vec![fill; 32];
    c[0] = prefix;
    c
}

fn validator(prefix: u8, fill: u8, effective_balance: u64, withdrawable_epoch: u64) -> Validator {
    Validator {
        pubkey: vec![fill; 48],
        withdrawal_credentials: credentials(prefix, fill),
        effective_balance,
        slashed: false,
        activation_eligibility_epoch: 0,
        activation_epoch: 0,
        exit_epoch: FAR_FUTURE_EPOCH,
        withdrawable_epoch,
    }
}

fn context() -> Context {
    Context {
        genesis_slot: 0,
        slots_per_epoch: 32,
        seconds_per_slot: 12,
        max_deposits: 16,
        max_effective_balance: MAX_EFFECTIVE_BALANCE,
    }
}

fn header() -> ExecutionPayloadHeader {
    ExecutionPayloadHeader {
        parent_hash: vec![0; 32],
        fee_recipient: vec![0; 20],
        state_root: vec![0; 32],
        receipts_root: vec![0; 32],
        logs_bloom: vec![0; 256],
        prev_randao: vec![0; 32],
        block_number: 0,
        gas_limit: 0,
        gas_used: 0,
        timestamp: 0,
        extra_data: vec![],
        base_fee_per_gas: vec![0; 32],
        block_hash: vec![0; 32],
        transactions_root: vec![0; 32],
        withdrawals_root: vec![0; 32],
    }
}

/// A state at epoch 10.
fn state(validators: Vec<Validator>, balances: Vec<u64>) -> BeaconState {
    BeaconState {
        genesis_time: 1_000,
        slot: 320,
        eth1_data: Eth1Data { deposit_root: vec![0; 32], deposit_count: 0, block_hash: vec![0; 32] },
        eth1_deposit_index: 0,
        validators,
        balances,
        randao_mixes: vec![vec![0; 32]; 4],
        latest_execution_payload_header: header(),
        next_withdrawal_index: 7,
        next_withdrawal_validator_index: 0,
    }
}

fn payload(withdrawals: Vec<Withdrawal>) -> ExecutionPayload {
    ExecutionPayload {
        parent_hash: vec![0; 32],
        fee_recipient: vec![0; 20],
        state_root: vec![0; 32],
        receipts_root: vec![0; 32],
        logs_bloom: vec![0; 256],
        prev_randao: vec![0; 32],
        block_number: 1,
        gas_limit: 30_000_000,
        gas_used: 0,
        timestamp: 0,
        extra_data: vec![],
        base_fee_per_gas: vec![0; 32],
        block_hash: vec![1; 32],
        transactions: vec![],
        withdrawals,
    }
}

fn withdrawal(index: usize, validator_index: usize, fill: u8, amount: u64) -> Withdrawal {
    Withdrawal { index, validator_index, address: vec![fill; 20], amount }
}

/// Validators: 0 fully withdrawable, 1 with a BLS credential, 2 partially withdrawable,
/// 3 at exactly the maximum balance, 4 withdrawable but empty.
fn mixed_state() -> BeaconState {
    state(
        vec![
            validator(1, 0xaa, MAX_EFFECTIVE_BALANCE, 5),
            validator(0, 0xbb, MAX_EFFECTIVE_BALANCE, 5),
            validator(1, 0xcc, MAX_EFFECTIVE_BALANCE, FAR_FUTURE_EPOCH),
            validator(1, 0xdd, MAX_EFFECTIVE_BALANCE, FAR_FUTURE_EPOCH),
            validator(1, 0xee, MAX_EFFECTIVE_BALANCE, 5),
        ],
        vec![31_000_000_000, 40_000_000_000, 33_000_000_000, MAX_EFFECTIVE_BALANCE, 0],
    )
}

#[test]
fn full_and_partial_withdrawals_are_found() {
    let s = mixed_state();
    let ws = get_expected_withdrawals::<16>(&s, &context()).unwrap();
    assert_eq!(
        ws,
        vec![withdrawal(7, 0, 0xaa, 31_000_000_000), withdrawal(8, 2, 0xcc, 1_000_000_000)]
    );
}

#[test]
fn address_is_the_credential_tail() {
    let mut s = mixed_state();
    let mut c = credentials(1, 0);
    for (i, b) in c.iter_mut().enumerate() {
        *b = i as u8;
    }
    c[0] = 1;
    s.validators[0].withdrawal_credentials = c;
    let ws = get_expected_withdrawals::<16>(&s, &context()).unwrap();
    assert_eq!(ws[0].address, (12u8..32).collect::<Vec<u8>>());
}

#[test]
fn sweep_stops_at_the_payload_limit() {
    let s = mixed_state();
    let ws = get_expected_withdrawals::<1>(&s, &context()).unwrap();
    assert_eq!(ws, vec![withdrawal(7, 0, 0xaa, 31_000_000_000)]);
}

#[test]
fn sweep_wraps_around() {
    let mut s = mixed_state();
    s.next_withdrawal_validator_index = 3;
    s.balances[4] = 5;
    let ws = get_expected_withdrawals::<16>(&s, &context()).unwrap();
    assert_eq!(
        ws,
        vec![
            withdrawal(7, 4, 0xee, 5),
            withdrawal(8, 0, 0xaa, 31_000_000_000),
            withdrawal(9, 2, 0xcc, 1_000_000_000),
        ]
    );
}

#[test]
fn sweep_of_no_validators_is_empty() {
    let s = state(vec![], vec![]);
    assert_eq!(get_expected_withdrawals::<16>(&s, &context()).unwrap(), vec![]);
}

#[test]
fn withdrawals_are_numbered_consecutively_from_distinct_validators() {
    let validators: Vec<Validator> = (0..10).map(|i| validator(1, i as u8, 0, 0)).collect();
    let mut s = state(validators, vec![1; 10]);
    s.next_withdrawal_validator_index = 6;
    s.next_withdrawal_index = 100;
    let ws = get_expected_withdrawals::<16>(&s, &context()).unwrap();
    assert_eq!(ws.len(), 10);
    for (j, w) in ws.iter().enumerate() {
        assert_eq!(w.index, 100 + j);
        assert_eq!(w.validator_index, (6 + j) % 10);
    }
}

#[test]
fn try_expected_refuses_a_start_past_the_validators() {
    let mut s = mixed_state();
    s.next_withdrawal_validator_index = 9;
    assert_eq!(try_expected_withdrawals::<16>(&s, &context()), None);
}

#[test]
fn try_expected_refuses_a_negative_amount() {
    let mut s = state(vec![validator(1, 0xaa, 1_000_000_000, FAR_FUTURE_EPOCH)], vec![2_000_000_000]);
    s.next_withdrawal_validator_index = 0;
    let mut c = context();
    c.max_effective_balance = 1_000_000_000;
    assert_eq!(try_expected_withdrawals::<16>(&s, &c), None);
}

#[test]
fn try_expected_refuses_a_short_balance_list() {
    let mut s = mixed_state();
    s.balances.truncate(2);
    assert_eq!(try_expected_withdrawals::<16>(&s, &context()), None);
}

#[test]
fn try_expected_agrees_with_get_expected() {
    let s = mixed_state();
    assert_eq!(
        try_expected_withdrawals::<16>(&s, &context()),
        Some(get_expected_withdrawals::<16>(&s, &context()).unwrap())
    );
}

#[test]
fn processing_withdrawals_moves_balances_and_cursors() {
    let mut s = mixed_state();
    let p = payload(get_expected_withdrawals::<16>(&s, &context()).unwrap());
    assert!(check_withdrawals_processable::<16>(&s, &p, &context()));
    process_withdrawals::<16>(&mut s, &p, &context()).unwrap();
    assert_eq!(
        s.balances,
        vec![0, 40_000_000_000, MAX_EFFECTIVE_BALANCE, MAX_EFFECTIVE_BALANCE, 0]
    );
    assert_eq!(s.next_withdrawal_index, 9);
    assert_eq!(s.next_withdrawal_validator_index, (0 + 16384) % 5);
}

#[test]
fn a_full_payload_moves_the_sweep_past_the_last_withdrawal() {
    let mut s = mixed_state();
    let p = payload(get_expected_withdrawals::<2>(&s, &context()).unwrap());
    process_withdrawals::<2>(&mut s, &p, &context()).unwrap();
    assert_eq!(s.next_withdrawal_index, 9);
    assert_eq!(s.next_withdrawal_validator_index, 3);
}

#[test]
fn an_empty_sweep_keeps_the_withdrawal_index() {
    let mut s = state(vec![validator(0, 1, 0, 0), validator(0, 2, 0, 0)], vec![5, 6]);
    s.next_withdrawal_validator_index = 1;
    let p = payload(vec![]);
    process_withdrawals::<16>(&mut s, &p, &context()).unwrap();
    assert_eq!(s.next_withdrawal_index, 7);
    assert_eq!(s.next_withdrawal_validator_index, (1 + 16384) % 2);
    assert_eq!(s.balances, vec![5, 6]);
}

#[test]
fn withdrawals_conserve_the_total_balance() {
    let mut s = mixed_state();
    s.next_withdrawal_validator_index = 3;
    s.balances[4] = 5;
    let before: u64 = s.balances.iter().sum();
    let ws = get_expected_withdrawals::<16>(&s, &context()).unwrap();
    let withdrawn: u64 = ws.iter().map(|w| w.amount).sum();
    let p = payload(ws);
    process_withdrawals::<16>(&mut s, &p, &context()).unwrap();
    let after: u64 = s.balances.iter().sum();
    assert_eq!(before - after, withdrawn);
}

#[test]
fn a_payload_with_other_withdrawals_is_not_processable() {
    let s = mixed_state();
    let mut ws = get_expected_withdrawals::<16>(&s, &context()).unwrap();
    ws[1].amount += 1;
    assert!(!check_withdrawals_processable::<16>(&s, &payload(ws), &context()));
    assert!(!check_withdrawals_processable::<16>(&s, &payload(vec![]), &context()));
}

#[test]
fn an_empty_registry_is_not_processable() {
    let s = state(vec![], vec![]);
    assert!(!check_withdrawals_processable::<16>(&s, &payload(vec![]), &context()));
}

#[test]
fn decreasing_a_balance_stops_at_zero() {
    let mut s = mixed_state();
    decrease_balance(&mut s, 0, 1_000);
    assert_eq!(s.balances[0], 31_000_000_000 - 1_000);
    decrease_balance(&mut s, 0, u64::MAX);
    assert_eq!(s.balances[0], 0);
}

#[test]
fn a_larger_payload_limit_only_extends_the_withdrawals() {
    let validators: Vec<Validator> = (0..6).map(|i| validator(1, i as u8, 0, 0)).collect();
    let mut s = state(validators, vec![3; 6]);
    s.next_withdrawal_validator_index = 4;
    let large = get_expected_withdrawals::<5>(&s, &context()).unwrap();
    let small = get_expected_withdrawals::<2>(&s, &context()).unwrap();
    assert_eq!(large.len(), 5);
    assert_eq!(small, large[..2].to_vec());
    let all = get_expected_withdrawals::<16>(&s, &context()).unwrap();
    assert_eq!(all.len(), 6);
    assert_eq!(large, all[..5].to_vec());
}

#[test]
fn withdrawals_follow_the_sweep_order() {
    let mut s = mixed_state();
    s.next_withdrawal_validator_index = 2;
    s.balances[4] = 5;
    let ws = get_expected_withdrawals::<16>(&s, &context()).unwrap();
    let order: Vec<usize> = ws.iter().map(|w| w.validator_index).collect();
    assert_eq!(order, vec![2, 4, 0]);
}

#[test]
fn withdrawal_indices_continue_across_blocks() {
    let validators: Vec<Validator> = (0..6).map(|i| validator(1, i as u8, 0, 0)).collect();
    let mut s = state(validators, vec![3; 6]);
    let first = get_expected_withdrawals::<2>(&s, &context()).unwrap();
    process_withdrawals::<2>(&mut s, &payload(first.clone()), &context()).unwrap();
    let second = get_expected_withdrawals::<2>(&s, &context()).unwrap();
    assert_eq!(first.iter().map(|w| w.index).collect::<Vec<_>>(), vec![7, 8]);
    assert_eq!(second.iter().map(|w| w.index).collect::<Vec<_>>(), vec![9, 10]);
    assert_eq!(second[0].validator_index, 2);
}

#[test]
fn every_withdrawable_validator_reached_is_withdrawn() {
    let mut s = mixed_state();
    s.balances[4] = 5;
    let ws = get_expected_withdrawals::<16>(&s, &context()).unwrap();
    let withdrawn: Vec<usize> = ws.iter().map(|w| w.validator_index).collect();
    assert_eq!(withdrawn, vec![0, 2, 4]);
}
