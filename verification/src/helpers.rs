use vstd::prelude::*;
use crate::types::{
    BeaconState, Context, Error, Validator, ETH1_ADDRESS_WITHDRAWAL_PREFIX,
};

verus! {

/// The credential names an execution-layer address.
pub open spec fn spec_has_eth1_withdrawal_credential(validator: Validator) -> bool {
    validator.withdrawal_credentials@[0] == ETH1_ADDRESS_WITHDRAWAL_PREFIX
}

/// The validator may withdraw its whole balance at `epoch`.
pub open spec fn spec_is_fully_withdrawable(validator: Validator, balance: u64, epoch: u64) -> bool {
    &&& spec_has_eth1_withdrawal_credential(validator)
    &&& validator.withdrawable_epoch <= epoch
    &&& balance > 0
}

/// The validator may withdraw what it holds above the maximum effective balance.
pub open spec fn spec_is_partially_withdrawable(
    validator: Validator,
    balance: u64,
    context: Context,
) -> bool {
    &&& spec_has_eth1_withdrawal_credential(validator)
    &&& validator.effective_balance == context.max_effective_balance
    &&& balance > context.max_effective_balance
}

pub open spec fn spec_current_epoch(state: BeaconState, context: Context) -> u64 {
    (state.slot / context.slots_per_epoch) as u64
}

pub open spec fn spec_randao_mix_index(state: BeaconState, epoch: u64) -> int {
    epoch as int % state.randao_mixes@.len() as int
}

/// The timestamp of `slot`, or `None` where it is before genesis or does not fit in a `u64`.
pub open spec fn spec_timestamp_at_slot(state: BeaconState, slot: u64, context: Context) -> Option<u64> {
    if slot < context.genesis_slot {
        None
    } else {
        let t = state.genesis_time + (slot - context.genesis_slot) * context.seconds_per_slot;
        if t <= u64::MAX { Some(t as u64) } else { None }
    }
}

/// `balance` lowered by `delta`, and never below zero.
pub open spec fn spec_decreased(balance: u64, delta: u64) -> u64 {
    if delta > balance { 0 } else { (balance - delta) as u64 }
}

/// Whether two byte strings are equal.
pub fn bytes_equal(a: &Vec<u8>, b: &Vec<u8>) -> (r: bool)
    ensures
        r == (a@ == b@),
{
    if a.len() != b.len() {
        return false;
    }
    let mut i: usize = 0;
    while i < a.len()
        invariant
            a@.len() == b@.len(),
            0 <= i <= a@.len(),
            forall|j: int| 0 <= j < i ==> a@[j] == b@[j],
        decreases a@.len() - i,
    {
        if a[i] != b[i] {
            return false;
        }
        i = i + 1;
    }
    assert(a@ =~= b@);
    true
}

pub fn has_eth1_withdrawal_credential(validator: &Validator) -> (r: bool)
    requires
        validator.wf(),
    ensures
        r == spec_has_eth1_withdrawal_credential(*validator),
{
    validator.withdrawal_credentials[0] == ETH1_ADDRESS_WITHDRAWAL_PREFIX
}

pub fn is_fully_withdrawable_validator(validator: &Validator, balance: u64, epoch: u64) -> (r: bool)
    requires
        validator.wf(),
    ensures
        r == spec_is_fully_withdrawable(*validator, balance, epoch),
{
    has_eth1_withdrawal_credential(validator) && validator.withdrawable_epoch <= epoch && balance > 0
}

pub fn is_partially_withdrawable_validator(
    validator: &Validator,
    balance: u64,
    context: &Context,
) -> (r: bool)
    requires
        validator.wf(),
    ensures
        r == spec_is_partially_withdrawable(*validator, balance, *context),
{
    let has_max_effective_balance = validator.effective_balance == context.max_effective_balance;
    let has_excess_balance = balance > context.max_effective_balance;
    has_eth1_withdrawal_credential(validator) && has_max_effective_balance && has_excess_balance
}

pub fn get_current_epoch(state: &BeaconState, context: &Context) -> (r: u64)
    requires
        context.slots_per_epoch > 0,
    ensures
        r == spec_current_epoch(*state, *context),
{
    state.slot / context.slots_per_epoch
}

pub fn get_randao_mix(state: &BeaconState, epoch: u64) -> (r: &Vec<u8>)
    requires
        state.randao_mixes@.len() > 0,
    ensures
        *r == state.randao_mixes@[spec_randao_mix_index(*state, epoch)],
{
    let len = state.randao_mixes.len() as u64;
    let index = (epoch % len) as usize;
    &state.randao_mixes[index]
}

pub fn compute_timestamp_at_slot(state: &BeaconState, slot: u64, context: &Context) -> (r: Result<
    u64,
    Error,
>)
    ensures
        match spec_timestamp_at_slot(*state, slot, *context) {
            Some(t) => r == Ok::<u64, Error>(t),
            None => r is Err,
        },
        slot < context.genesis_slot ==> r == Err::<u64, Error>(Error::Underflow),
        slot >= context.genesis_slot && spec_timestamp_at_slot(*state, slot, *context) is None
            ==> r == Err::<u64, Error>(Error::Overflow),
{
    if slot < context.genesis_slot {
        return Err(Error::Underflow);
    }
    let slots_since_genesis = slot - context.genesis_slot;
    let elapsed = match slots_since_genesis.checked_mul(context.seconds_per_slot) {
        Some(e) => e,
        None => {
            proof {
                assert(slots_since_genesis * context.seconds_per_slot > u64::MAX);
                assert(state.genesis_time + slots_since_genesis * context.seconds_per_slot > u64::MAX);
            }
            return Err(Error::Overflow);
        },
    };
    match state.genesis_time.checked_add(elapsed) {
        Some(t) => Ok(t),
        None => Err(Error::Overflow),
    }
}

pub fn decrease_balance(state: &mut BeaconState, index: usize, delta: u64)
    requires
        index < old(state).balances@.len(),
    ensures
        final(state).balances@ == old(state).balances@.update(
            index as int,
            spec_decreased(old(state).balances@[index as int], delta),
        ),
        final(state).genesis_time == old(state).genesis_time,
        final(state).slot == old(state).slot,
        final(state).eth1_data == old(state).eth1_data,
        final(state).eth1_deposit_index == old(state).eth1_deposit_index,
        final(state).validators == old(state).validators,
        final(state).randao_mixes == old(state).randao_mixes,
        final(state).latest_execution_payload_header == old(state).latest_execution_payload_header,
        final(state).next_withdrawal_index == old(state).next_withdrawal_index,
        final(state).next_withdrawal_validator_index == old(state).next_withdrawal_validator_index,
{
    let balance = state.balances[index];
    let new_balance = if delta > balance { 0 } else { balance - delta };
    state.balances.set(index, new_balance);
}

} // verus!
