use vstd::prelude::*;
use crate::helpers::{
    bytes_equal, decrease_balance, get_current_epoch, is_fully_withdrawable_validator,
    is_partially_withdrawable_validator, spec_current_epoch, spec_decreased,
    spec_is_fully_withdrawable, spec_is_partially_withdrawable,
};
use crate::types::{
    withdrawals_view, BeaconState, Context, Error, ExecutionPayload, Validator, Withdrawal,
    WithdrawalSpec, MAX_EFFECTIVE_BALANCE, MAX_VALIDATORS_PER_WITHDRAWALS_SWEEP,
};

verus! {

/// The execution address named by a withdrawal credential: its last twenty bytes.
pub open spec fn spec_withdrawal_address(validator: Validator) -> Seq<u8> {
    validator.withdrawal_credentials@.subrange(12, 32)
}

/// What the sweep withdraws from a validator holding `balance`, if anything.
pub open spec fn spec_sweep_amount(
    validator: Validator,
    balance: u64,
    epoch: u64,
    context: Context,
) -> Option<int> {
    if spec_is_fully_withdrawable(validator, balance, epoch) {
        Some(balance as int)
    } else if spec_is_partially_withdrawable(validator, balance, context) {
        Some(balance - MAX_EFFECTIVE_BALANCE)
    } else {
        None
    }
}

/// The withdrawals sweep with `steps` validators left to visit, starting at validator
/// `vi` and withdrawal index `wi`, having found `acc` so far. `None` stands for the
/// inputs on which the sweep cannot be carried out: an index past the end of the
/// validators or balances, an amount below zero, or a withdrawal index past `usize::MAX`.
pub open spec fn spec_sweep(
    validators: Seq<Validator>,
    balances: Seq<u64>,
    epoch: u64,
    context: Context,
    max_withdrawals: int,
    steps: nat,
    vi: int,
    wi: int,
    acc: Seq<WithdrawalSpec>,
) -> Option<Seq<WithdrawalSpec>>
    decreases steps,
{
    if steps == 0 {
        Some(acc)
    } else if !(0 <= vi < validators.len() && vi < balances.len()) {
        None
    } else {
        let validator = validators[vi];
        let balance = balances[vi];
        let next_vi = (vi + 1) % (validators.len() as int);
        match spec_sweep_amount(validator, balance, epoch, context) {
            Some(amount) => {
                if amount < 0 || wi + 1 > usize::MAX {
                    None
                } else {
                    let acc2 = acc.push(
                        WithdrawalSpec {
                            index: wi,
                            validator_index: vi,
                            address: spec_withdrawal_address(validator),
                            amount,
                        },
                    );
                    if acc2.len() == max_withdrawals {
                        Some(acc2)
                    } else {
                        spec_sweep(
                            validators,
                            balances,
                            epoch,
                            context,
                            max_withdrawals,
                            (steps - 1) as nat,
                            next_vi,
                            wi + 1,
                            acc2,
                        )
                    }
                }
            },
            None => {
                if acc.len() == max_withdrawals {
                    Some(acc)
                } else {
                    spec_sweep(
                        validators,
                        balances,
                        epoch,
                        context,
                        max_withdrawals,
                        (steps - 1) as nat,
                        next_vi,
                        wi,
                        acc,
                    )
                }
            },
        }
    }
}

/// How many validators one sweep visits at most.
pub open spec fn spec_sweep_bound(state: BeaconState) -> int {
    if state.validators@.len() < MAX_VALIDATORS_PER_WITHDRAWALS_SWEEP {
        state.validators@.len() as int
    } else {
        MAX_VALIDATORS_PER_WITHDRAWALS_SWEEP as int
    }
}

/// The withdrawals that a block built on `state` must carry, or `None` where the
/// sweep cannot be carried out (see `spec_sweep`).
pub open spec fn spec_expected_withdrawals(
    state: BeaconState,
    context: Context,
    max_withdrawals: int,
) -> Option<Seq<WithdrawalSpec>> {
    spec_sweep(
        state.validators@,
        state.balances@,
        spec_current_epoch(state, context),
        context,
        max_withdrawals,
        spec_sweep_bound(state) as nat,
        state.next_withdrawal_validator_index as int,
        state.next_withdrawal_index as int,
        Seq::empty(),
    )
}

/// How many steps after `start` a sweep over `len` validators reaches validator `x`.
pub open spec fn spec_sweep_offset(x: int, start: int, len: int) -> int {
    if x >= start {
        x - start
    } else {
        x - start + len
    }
}

/// What holds of the withdrawal at position `j` of a sweep that started at
/// validator `vi` and withdrawal index `wi` with `acc_len` withdrawals already found.
pub open spec fn spec_sweep_entry(
    validators: Seq<Validator>,
    balances: Seq<u64>,
    epoch: u64,
    context: Context,
    steps: nat,
    vi: int,
    wi: int,
    acc_len: int,
    w: WithdrawalSpec,
    j: int,
) -> bool {
    let len = validators.len() as int;
    &&& w.index == wi + (j - acc_len)
    &&& w.index + 1 <= usize::MAX
    &&& 0 <= w.validator_index < len
    &&& w.validator_index < balances.len()
    &&& 0 <= spec_sweep_offset(w.validator_index, vi, len) < steps
    &&& spec_sweep_amount(
        validators[w.validator_index],
        balances[w.validator_index],
        epoch,
        context,
    ) == Some(w.amount)
    &&& 0 <= w.amount <= balances[w.validator_index]
    &&& w.address == spec_withdrawal_address(validators[w.validator_index])
}

proof fn lemma_next_validator_index(vi: int, len: int)
    requires
        0 <= vi < len,
    ensures
        (vi + 1) % len == if vi + 1 == len { 0 } else { vi + 1 },
{
    if vi + 1 == len {
        vstd::arithmetic::div_mod::lemma_mod_self_0(len);
    } else {
        vstd::arithmetic::div_mod::lemma_small_mod((vi + 1) as nat, len as nat);
    }
}

/// What a sweep that can be carried out finds: it extends what was found before,
/// adds at most one withdrawal per visited validator, numbers them consecutively,
/// visits validators in order without coming back to one, and stops at the limit.
pub proof fn lemma_sweep(
    validators: Seq<Validator>,
    balances: Seq<u64>,
    epoch: u64,
    context: Context,
    max_withdrawals: int,
    steps: nat,
    vi: int,
    wi: int,
    acc: Seq<WithdrawalSpec>,
)
    requires
        spec_sweep(validators, balances, epoch, context, max_withdrawals, steps, vi, wi, acc) is Some,
        steps <= validators.len(),
    ensures
        ({
            let r = spec_sweep(
                validators,
                balances,
                epoch,
                context,
                max_withdrawals,
                steps,
                vi,
                wi,
                acc,
            )->Some_0;
            &&& acc.len() <= r.len() <= acc.len() + steps
            &&& r.subrange(0, acc.len() as int) == acc
            &&& acc.len() < max_withdrawals ==> r.len() <= max_withdrawals
            &&& forall|j: int|
                acc.len() <= j < r.len() ==> #[trigger] spec_sweep_entry(
                    validators,
                    balances,
                    epoch,
                    context,
                    steps,
                    vi,
                    wi,
                    acc.len() as int,
                    r[j],
                    j,
                )
            &&& forall|j1: int, j2: int|
                acc.len() <= j1 < j2 < r.len() ==> spec_sweep_offset(
                    #[trigger] r[j1].validator_index,
                    vi,
                    validators.len() as int,
                ) < spec_sweep_offset(#[trigger] r[j2].validator_index, vi, validators.len() as int)
        }),
    decreases steps,
{
    let r = spec_sweep(validators, balances, epoch, context, max_withdrawals, steps, vi, wi, acc)->Some_0;
    if steps == 0 {
        assert(r.subrange(0, acc.len() as int) =~= acc);
    } else {
        let len = validators.len() as int;
        let validator = validators[vi];
        let balance = balances[vi];
        let next_vi = (vi + 1) % len;
        lemma_next_validator_index(vi, len);
        match spec_sweep_amount(validator, balance, epoch, context) {
            Some(amount) => {
                let w = WithdrawalSpec {
                    index: wi,
                    validator_index: vi,
                    address: spec_withdrawal_address(validator),
                    amount,
                };
                let acc2 = acc.push(w);
                assert(amount <= balance);
                if acc2.len() == max_withdrawals {
                    assert(r == acc2);
                    assert(r.subrange(0, acc.len() as int) =~= acc);
                    assert(spec_sweep_entry(
                        validators,
                        balances,
                        epoch,
                        context,
                        steps,
                        vi,
                        wi,
                        acc.len() as int,
                        r[acc.len() as int],
                        acc.len() as int,
                    ));
                } else {
                    lemma_sweep(
                        validators,
                        balances,
                        epoch,
                        context,
                        max_withdrawals,
                        (steps - 1) as nat,
                        next_vi,
                        wi + 1,
                        acc2,
                    );
                    assert(r.subrange(0, acc2.len() as int) == acc2);
                    assert(r[acc.len() as int] == w) by {
                        assert(r.subrange(0, acc2.len() as int)[acc.len() as int] == acc2[acc.len() as int]);
                    }
                    assert(r.subrange(0, acc.len() as int) =~= acc) by {
                        assert forall|i: int| 0 <= i < acc.len() implies r.subrange(0, acc.len() as int)[i] == acc[i] by {
                            assert(r.subrange(0, acc2.len() as int)[i] == acc2[i]);
                        }
                    }
                    assert forall|j: int| acc.len() <= j < r.len() implies #[trigger] spec_sweep_entry(
                        validators,
                        balances,
                        epoch,
                        context,
                        steps,
                        vi,
                        wi,
                        acc.len() as int,
                        r[j],
                        j,
                    ) by {
                        if j > acc.len() {
                            assert(spec_sweep_entry(
                                validators,
                                balances,
                                epoch,
                                context,
                                (steps - 1) as nat,
                                next_vi,
                                wi + 1,
                                acc2.len() as int,
                                r[j],
                                j,
                            ));
                        }
                    }
                    assert forall|j1: int, j2: int|
                        acc.len() <= j1 < j2 < r.len() implies spec_sweep_offset(
                        #[trigger] r[j1].validator_index,
                        vi,
                        len,
                    ) < spec_sweep_offset(#[trigger] r[j2].validator_index, vi, len) by {
                        assert(spec_sweep_entry(
                            validators,
                            balances,
                            epoch,
                            context,
                            (steps - 1) as nat,
                            next_vi,
                            wi + 1,
                            acc2.len() as int,
                            r[j2],
                            j2,
                        ));
                        if j1 > acc.len() {
                            assert(spec_sweep_entry(
                                validators,
                                balances,
                                epoch,
                                context,
                                (steps - 1) as nat,
                                next_vi,
                                wi + 1,
                                acc2.len() as int,
                                r[j1],
                                j1,
                            ));
                        }
                    }
                }
            },
            None => {
                if acc.len() == max_withdrawals {
                    assert(r.subrange(0, acc.len() as int) =~= acc);
                } else {
                    lemma_sweep(
                        validators,
                        balances,
                        epoch,
                        context,
                        max_withdrawals,
                        (steps - 1) as nat,
                        next_vi,
                        wi,
                        acc,
                    );
                    assert forall|j: int| acc.len() <= j < r.len() implies #[trigger] spec_sweep_entry(
                        validators,
                        balances,
                        epoch,
                        context,
                        steps,
                        vi,
                        wi,
                        acc.len() as int,
                        r[j],
                        j,
                    ) by {
                        assert(spec_sweep_entry(
                            validators,
                            balances,
                            epoch,
                            context,
                            (steps - 1) as nat,
                            next_vi,
                            wi,
                            acc.len() as int,
                            r[j],
                            j,
                        ));
                    }
                    assert forall|j1: int, j2: int|
                        acc.len() <= j1 < j2 < r.len() implies spec_sweep_offset(
                        #[trigger] r[j1].validator_index,
                        vi,
                        len,
                    ) < spec_sweep_offset(#[trigger] r[j2].validator_index, vi, len) by {
                        assert(spec_sweep_entry(
                            validators,
                            balances,
                            epoch,
                            context,
                            (steps - 1) as nat,
                            next_vi,
                            wi,
                            acc.len() as int,
                            r[j1],
                            j1,
                        ));
                        assert(spec_sweep_entry(
                            validators,
                            balances,
                            epoch,
                            context,
                            (steps - 1) as nat,
                            next_vi,
                            wi,
                            acc.len() as int,
                            r[j2],
                            j2,
                        ));
                    }
                }
            },
        }
    }
}

/// Copies the execution address out of a withdrawal credential.
fn execution_address(credentials: &Vec<u8>) -> (r: Vec<u8>)
    requires
        credentials@.len() == 32,
    ensures
        r@ == credentials@.subrange(12, 32),
{
    let mut address: Vec<u8> = Vec::new();
    let mut i: usize = 12;
    while i < 32
        invariant
            12 <= i <= 32,
            credentials@.len() == 32,
            address@ == credentials@.subrange(12, i as int),
        decreases 32 - i,
    {
        address.push(credentials[i]);
        i = i + 1;
    }
    address
}

proof fn lemma_withdrawals_view_push(ws: Seq<Withdrawal>, w: Withdrawal)
    ensures
        withdrawals_view(ws.push(w)) == withdrawals_view(ws).push(w@),
{
    assert(withdrawals_view(ws.push(w)) =~= withdrawals_view(ws).push(w@));
}

/// The withdrawals that the next block must carry: a sweep over at most
/// `MAX_VALIDATORS_PER_WITHDRAWALS_SWEEP` validators from
/// `next_withdrawal_validator_index`, wrapping around, that stops once
/// `MAX_WITHDRAWALS_PER_PAYLOAD` withdrawals are found.
pub fn get_expected_withdrawals<const MAX_WITHDRAWALS_PER_PAYLOAD: usize>(
    state: &BeaconState,
    context: &Context,
) -> (r: Result<Vec<Withdrawal>, Error>)
    requires
        context.slots_per_epoch > 0,
        state.validators_wf(),
        spec_expected_withdrawals(*state, *context, MAX_WITHDRAWALS_PER_PAYLOAD as int) is Some,
    ensures
        r matches Ok(ws) && withdrawals_view(ws@) == spec_expected_withdrawals(
            *state,
            *context,
            MAX_WITHDRAWALS_PER_PAYLOAD as int,
        )->Some_0,
{
    let found = try_expected_withdrawals::<MAX_WITHDRAWALS_PER_PAYLOAD>(state, context);
    match found {
        Some(withdrawals) => Ok(withdrawals),
        None => {
            proof {
                assert(false);
            }
            Ok(Vec::new())
        },
    }
}

/// The withdrawals sweep, or `None` exactly where it cannot be carried out (where
/// `get_expected_withdrawals` may not be called): from `next_withdrawal_validator_index`,
/// wrapping around, over at most `MAX_VALIDATORS_PER_WITHDRAWALS_SWEEP` validators, it
/// takes each fully withdrawable validator's balance and each partially withdrawable
/// validator's excess, and stops once `MAX_WITHDRAWALS_PER_PAYLOAD` withdrawals are found.
pub fn try_expected_withdrawals<const MAX_WITHDRAWALS_PER_PAYLOAD: usize>(
    state: &BeaconState,
    context: &Context,
) -> (r: Option<Vec<Withdrawal>>)
    requires
        context.slots_per_epoch > 0,
        state.validators_wf(),
    ensures
        r is Some <==> spec_expected_withdrawals(
            *state,
            *context,
            MAX_WITHDRAWALS_PER_PAYLOAD as int,
        ) is Some,
        r matches Some(ws) ==> withdrawals_view(ws@) == spec_expected_withdrawals(
            *state,
            *context,
            MAX_WITHDRAWALS_PER_PAYLOAD as int,
        )->Some_0,
{
    let ghost target = spec_expected_withdrawals(*state, *context, MAX_WITHDRAWALS_PER_PAYLOAD as int);
    let epoch = get_current_epoch(state, context);
    let mut withdrawal_index = state.next_withdrawal_index;
    let mut validator_index = state.next_withdrawal_validator_index;
    let mut withdrawals: Vec<Withdrawal> = Vec::new();
    let bound = if state.validators.len() < MAX_VALIDATORS_PER_WITHDRAWALS_SWEEP {
        state.validators.len()
    } else {
        MAX_VALIDATORS_PER_WITHDRAWALS_SWEEP
    };
    let mut k: usize = 0;
    assert(withdrawals_view(withdrawals@) =~= Seq::<WithdrawalSpec>::empty());
    while k < bound
        invariant_except_break
            target == spec_expected_withdrawals(*state, *context, MAX_WITHDRAWALS_PER_PAYLOAD as int),
            0 <= k <= bound,
            bound == spec_sweep_bound(*state),
            context.slots_per_epoch > 0,
            state.validators_wf(),
            epoch == spec_current_epoch(*state, *context),
            spec_sweep(
                state.validators@,
                state.balances@,
                epoch,
                *context,
                MAX_WITHDRAWALS_PER_PAYLOAD as int,
                (bound - k) as nat,
                validator_index as int,
                withdrawal_index as int,
                withdrawals_view(withdrawals@),
            ) == target,
        ensures
            target == Some(withdrawals_view(withdrawals@)),
        decreases bound - k,
    {
        if validator_index >= state.validators.len() || validator_index >= state.balances.len() {
            return None;
        }
        let validator = &state.validators[validator_index];
        let balance = state.balances[validator_index];
        assert(validator.wf());
        if is_fully_withdrawable_validator(validator, balance, epoch) {
            if withdrawal_index == usize::MAX {
                return None;
            }
            let address = execution_address(&validator.withdrawal_credentials);
            let w = Withdrawal { index: withdrawal_index, validator_index, address, amount: balance };
            proof {
                lemma_withdrawals_view_push(withdrawals@, w);
            }
            withdrawals.push(w);
            withdrawal_index += 1;
        } else if is_partially_withdrawable_validator(validator, balance, context) {
            if withdrawal_index == usize::MAX || balance < MAX_EFFECTIVE_BALANCE {
                return None;
            }
            let address = execution_address(&validator.withdrawal_credentials);
            let w = Withdrawal {
                index: withdrawal_index,
                validator_index,
                address,
                amount: balance - MAX_EFFECTIVE_BALANCE,
            };
            proof {
                lemma_withdrawals_view_push(withdrawals@, w);
            }
            withdrawals.push(w);
            withdrawal_index += 1;
        }
        if withdrawals.len() == MAX_WITHDRAWALS_PER_PAYLOAD {
            break ;
        }
        let len = state.validators.len();
        validator_index = (validator_index + 1) % len;
        k = k + 1;
    }
    Some(withdrawals)
}

/// The balances after each withdrawal of `ws`, in order, has been taken from its validator.
pub open spec fn spec_apply_withdrawals(balances: Seq<u64>, ws: Seq<WithdrawalSpec>) -> Seq<u64>
    decreases ws.len(),
{
    if ws.len() == 0 {
        balances
    } else {
        let prev = spec_apply_withdrawals(balances, ws.drop_last());
        let w = ws.last();
        prev.update(w.validator_index, spec_decreased(prev[w.validator_index], w.amount as u64))
    }
}

/// The withdrawal index after a block that carried `ws`.
pub open spec fn spec_next_withdrawal_index(state: BeaconState, ws: Seq<WithdrawalSpec>) -> int {
    if ws.len() > 0 {
        ws.last().index + 1
    } else {
        state.next_withdrawal_index as int
    }
}

/// Where the next sweep starts after a block that carried `ws`: just past the last
/// validator withdrawn from when the payload was full, else a whole sweep further on.
pub open spec fn spec_next_withdrawal_validator_index(
    state: BeaconState,
    ws: Seq<WithdrawalSpec>,
    max_withdrawals: int,
) -> int {
    let len = state.validators@.len() as int;
    if ws.len() == max_withdrawals {
        (ws.last().validator_index + 1) % len
    } else {
        (state.next_withdrawal_validator_index + MAX_VALIDATORS_PER_WITHDRAWALS_SWEEP) % len
    }
}

/// `after` is `before` with the expected withdrawals taken from the balances and the
/// withdrawal cursors moved on; nothing else differs.
pub open spec fn spec_withdrawals_applied(
    after: BeaconState,
    before: BeaconState,
    context: Context,
    max_withdrawals: int,
) -> bool {
    let expected = spec_expected_withdrawals(before, context, max_withdrawals)->Some_0;
    &&& after.balances@ == spec_apply_withdrawals(before.balances@, expected)
    &&& after.next_withdrawal_index == spec_next_withdrawal_index(before, expected)
    &&& after.next_withdrawal_validator_index == spec_next_withdrawal_validator_index(
        before,
        expected,
        max_withdrawals,
    )
    &&& after.genesis_time == before.genesis_time
    &&& after.slot == before.slot
    &&& after.eth1_data == before.eth1_data
    &&& after.eth1_deposit_index == before.eth1_deposit_index
    &&& after.validators == before.validators
    &&& after.randao_mixes == before.randao_mixes
    &&& after.latest_execution_payload_header == before.latest_execution_payload_header
}

/// What `process_withdrawals` needs of the state, the payload and the context: the
/// sweep can be carried out, the payload carries exactly the withdrawals it finds, and
/// the start of the next sweep can be computed.
pub open spec fn spec_withdrawals_processable(
    state: BeaconState,
    payload: ExecutionPayload,
    context: Context,
    max_withdrawals: int,
) -> bool {
    &&& context.slots_per_epoch > 0
    &&& state.validators_wf()
    &&& spec_expected_withdrawals(state, context, max_withdrawals) is Some
    &&& ({
        let expected = spec_expected_withdrawals(state, context, max_withdrawals)->Some_0;
        &&& withdrawals_view(payload.withdrawals@) == expected
        &&& expected.len() == max_withdrawals ==> expected.len() > 0
        &&& expected.len() != max_withdrawals ==> {
            &&& state.validators@.len() > 0
            &&& state.next_withdrawal_validator_index + MAX_VALIDATORS_PER_WITHDRAWALS_SWEEP
                <= usize::MAX
        }
    })
}

/// Facts about the expected withdrawals of a state on which the sweep can be carried out.
proof fn lemma_expected_withdrawals(state: BeaconState, context: Context, max_withdrawals: int)
    requires
        spec_expected_withdrawals(state, context, max_withdrawals) is Some,
    ensures
        ({
            let ws = spec_expected_withdrawals(state, context, max_withdrawals)->Some_0;
            let len = state.validators@.len() as int;
            &&& ws.len() <= spec_sweep_bound(state)
            &&& max_withdrawals > 0 ==> ws.len() <= max_withdrawals
            &&& forall|j: int|
                0 <= j < ws.len() ==> #[trigger] spec_sweep_entry(
                    state.validators@,
                    state.balances@,
                    spec_current_epoch(state, context),
                    context,
                    spec_sweep_bound(state) as nat,
                    state.next_withdrawal_validator_index as int,
                    state.next_withdrawal_index as int,
                    0,
                    ws[j],
                    j,
                )
            &&& forall|j1: int, j2: int|
                0 <= j1 < j2 < ws.len() ==> spec_sweep_offset(
                    #[trigger] ws[j1].validator_index,
                    state.next_withdrawal_validator_index as int,
                    len,
                ) < spec_sweep_offset(
                    #[trigger] ws[j2].validator_index,
                    state.next_withdrawal_validator_index as int,
                    len,
                )
        }),
{
    lemma_sweep(
        state.validators@,
        state.balances@,
        spec_current_epoch(state, context),
        context,
        max_withdrawals,
        spec_sweep_bound(state) as nat,
        state.next_withdrawal_validator_index as int,
        state.next_withdrawal_index as int,
        Seq::empty(),
    );
}

/// The withdrawal at position `j` of the expected withdrawals, as the sweep found it.
pub open spec fn spec_expected_entry(state: BeaconState, context: Context, w: WithdrawalSpec, j: int) -> bool {
    spec_sweep_entry(
        state.validators@,
        state.balances@,
        spec_current_epoch(state, context),
        context,
        spec_sweep_bound(state) as nat,
        state.next_withdrawal_validator_index as int,
        state.next_withdrawal_index as int,
        0,
        w,
        j,
    )
}

proof fn lemma_expected_entry(state: BeaconState, context: Context, max_withdrawals: int, j: int)
    requires
        spec_expected_withdrawals(state, context, max_withdrawals) is Some,
        0 <= j < spec_expected_withdrawals(state, context, max_withdrawals)->Some_0.len(),
    ensures
        spec_expected_entry(
            state,
            context,
            spec_expected_withdrawals(state, context, max_withdrawals)->Some_0[j],
            j,
        ),
{
    lemma_expected_withdrawals(state, context, max_withdrawals);
    assert(spec_sweep_entry(
        state.validators@,
        state.balances@,
        spec_current_epoch(state, context),
        context,
        spec_sweep_bound(state) as nat,
        state.next_withdrawal_validator_index as int,
        state.next_withdrawal_index as int,
        0,
        spec_expected_withdrawals(state, context, max_withdrawals)->Some_0[j],
        j,
    ));
}

/// Takes the payload's withdrawals from the validators' balances and moves the
/// withdrawal cursors on. The payload must carry exactly the expected withdrawals.
pub fn process_withdrawals<const MAX_WITHDRAWALS_PER_PAYLOAD: usize>(
    state: &mut BeaconState,
    payload: &ExecutionPayload,
    context: &Context,
) -> (r: Result<(), Error>)
    requires
        spec_withdrawals_processable(
            *old(state),
            *payload,
            *context,
            MAX_WITHDRAWALS_PER_PAYLOAD as int,
        ),
    ensures
        r is Ok,
        spec_withdrawals_applied(
            *final(state),
            *old(state),
            *context,
            MAX_WITHDRAWALS_PER_PAYLOAD as int,
        ),
{
    let ghost old_state = *state;
    let ghost expected_spec = spec_expected_withdrawals(
        old_state,
        *context,
        MAX_WITHDRAWALS_PER_PAYLOAD as int,
    )->Some_0;
    let expected_withdrawals = match get_expected_withdrawals::<MAX_WITHDRAWALS_PER_PAYLOAD>(
        state,
        context,
    ) {
        Ok(ws) => ws,
        Err(e) => {
            return Err(e);
        },
    };
    assert(withdrawals_view(expected_withdrawals@) == expected_spec);
    assert(expected_withdrawals@.len() == expected_spec.len());
    let n = expected_withdrawals.len();
    assert(payload.withdrawals@.len() == withdrawals_view(payload.withdrawals@).len());
    let mut i: usize = 0;
    while i < n
        invariant
            0 <= i <= n,
            n == expected_spec.len(),
            n == payload.withdrawals@.len(),
            withdrawals_view(payload.withdrawals@) == expected_spec,
            state.balances@ == spec_apply_withdrawals(old_state.balances@, expected_spec.take(i as int)),
            state.balances@.len() == old_state.balances@.len(),
            expected_spec == spec_expected_withdrawals(
                old_state,
                *context,
                MAX_WITHDRAWALS_PER_PAYLOAD as int,
            )->Some_0,
            spec_expected_withdrawals(old_state, *context, MAX_WITHDRAWALS_PER_PAYLOAD as int) is Some,
            state.genesis_time == old_state.genesis_time,
            state.slot == old_state.slot,
            state.eth1_data == old_state.eth1_data,
            state.eth1_deposit_index == old_state.eth1_deposit_index,
            state.validators == old_state.validators,
            state.randao_mixes == old_state.randao_mixes,
            state.latest_execution_payload_header == old_state.latest_execution_payload_header,
            state.next_withdrawal_index == old_state.next_withdrawal_index,
            state.next_withdrawal_validator_index == old_state.next_withdrawal_validator_index,
        decreases n - i,
    {
        let withdrawal = &payload.withdrawals[i];
        assert(withdrawal@ == expected_spec[i as int]);
        proof {
            lemma_expected_entry(old_state, *context, MAX_WITHDRAWALS_PER_PAYLOAD as int, i as int);
        }
        decrease_balance(state, withdrawal.validator_index, withdrawal.amount);
        assert(expected_spec.take(i + 1).drop_last() =~= expected_spec.take(i as int));
        i = i + 1;
    }
    assert(expected_spec.take(n as int) =~= expected_spec);
    if n > 0 {
        let latest_withdrawal = &expected_withdrawals[n - 1];
        assert(latest_withdrawal@ == expected_spec[n - 1]);
        proof {
            lemma_expected_entry(old_state, *context, MAX_WITHDRAWALS_PER_PAYLOAD as int, n - 1);
        }
        state.next_withdrawal_index = latest_withdrawal.index + 1;
    }
    let len = state.validators.len();
    if n == MAX_WITHDRAWALS_PER_PAYLOAD {
        let latest_withdrawal = &expected_withdrawals[n - 1];
        assert(latest_withdrawal@ == expected_spec[n - 1]);
        proof {
            lemma_expected_entry(old_state, *context, MAX_WITHDRAWALS_PER_PAYLOAD as int, n - 1);
        }
        let next_validator_index = (latest_withdrawal.validator_index + 1) % len;
        state.next_withdrawal_validator_index = next_validator_index;
    } else {
        let next_index = state.next_withdrawal_validator_index + MAX_VALIDATORS_PER_WITHDRAWALS_SWEEP;
        let next_validator_index = next_index % len;
        state.next_withdrawal_validator_index = next_validator_index;
    }
    Ok(())
}

/// The sum of a sequence of balances.
pub open spec fn spec_balance_sum(balances: Seq<u64>) -> int
    decreases balances.len(),
{
    if balances.len() == 0 {
        0
    } else {
        spec_balance_sum(balances.drop_last()) + balances.last()
    }
}

/// The sum of the amounts of a sequence of withdrawals.
pub open spec fn spec_withdrawn_total(ws: Seq<WithdrawalSpec>) -> int
    decreases ws.len(),
{
    if ws.len() == 0 {
        0
    } else {
        spec_withdrawn_total(ws.drop_last()) + ws.last().amount
    }
}

proof fn lemma_balance_sum_update(s: Seq<u64>, i: int, v: u64)
    requires
        0 <= i < s.len(),
    ensures
        spec_balance_sum(s.update(i, v)) == spec_balance_sum(s) - s[i] + v,
    decreases s.len(),
{
    let t = s.update(i, v);
    if i == s.len() - 1 {
        assert(t.drop_last() =~= s.drop_last());
    } else {
        assert(t.drop_last() =~= s.drop_last().update(i, v));
        lemma_balance_sum_update(s.drop_last(), i, v);
    }
}

/// Withdrawals that name distinct validators in range, each for no more than its balance.
pub open spec fn spec_withdrawals_separate(balances: Seq<u64>, ws: Seq<WithdrawalSpec>) -> bool {
    &&& forall|j: int|
        0 <= j < ws.len() ==> 0 <= (#[trigger] ws[j]).validator_index < balances.len() && 0
            <= ws[j].amount <= balances[ws[j].validator_index]
    &&& forall|j1: int, j2: int|
        0 <= j1 < ws.len() && 0 <= j2 < ws.len() && j1 != j2 ==> (#[trigger] ws[j1]).validator_index
            != (#[trigger] ws[j2]).validator_index
}

proof fn lemma_apply_prefix(balances: Seq<u64>, ws: Seq<WithdrawalSpec>, k: int)
    requires
        spec_withdrawals_separate(balances, ws),
        0 <= k <= ws.len(),
    ensures
        ({
            let after = spec_apply_withdrawals(balances, ws.take(k));
            &&& after.len() == balances.len()
            &&& spec_balance_sum(after) == spec_balance_sum(balances) - spec_withdrawn_total(ws.take(k))
            &&& forall|m: int|
                k <= m < ws.len() ==> after[(#[trigger] ws[m]).validator_index]
                    == balances[ws[m].validator_index]
            &&& forall|j: int|
                0 <= j < k ==> after[(#[trigger] ws[j]).validator_index] == balances[ws[j].validator_index]
                    - ws[j].amount
            &&& forall|i: int|
                0 <= i < balances.len() && (forall|j: int| 0 <= j < k ==> (#[trigger] ws[j]).validator_index != i)
                    ==> after[i] == balances[i]
        }),
    decreases k,
{
    if k == 0 {
        assert(ws.take(0) =~= Seq::<WithdrawalSpec>::empty());
    } else {
        lemma_apply_prefix(balances, ws, k - 1);
        let prev = spec_apply_withdrawals(balances, ws.take(k - 1));
        assert(ws.take(k).drop_last() =~= ws.take(k - 1));
        assert(ws.take(k).last() == ws[k - 1]);
        let w = ws[k - 1];
        assert(prev[w.validator_index] == balances[w.validator_index]);
        lemma_balance_sum_update(prev, w.validator_index, (balances[w.validator_index] - w.amount) as u64);
        let after = spec_apply_withdrawals(balances, ws.take(k));
        assert forall|m: int| k <= m < ws.len() implies after[(#[trigger] ws[m]).validator_index]
            == balances[ws[m].validator_index] by {
            assert(ws[m].validator_index != ws[k - 1].validator_index);
        }
        assert forall|j: int| 0 <= j < k implies after[(#[trigger] ws[j]).validator_index]
            == balances[ws[j].validator_index] - ws[j].amount by {
            if j < k - 1 {
                assert(ws[j].validator_index != ws[k - 1].validator_index);
            }
        }
        assert forall|i: int|
            0 <= i < balances.len() && (forall|j: int| 0 <= j < k ==> (#[trigger] ws[j]).validator_index != i)
            implies after[i] == balances[i] by {
            assert(ws[k - 1].validator_index != i);
        }
    }
}

/// The withdrawals a sweep finds: at most one per visited validator and no more than
/// the payload limit (where that limit is positive); numbered consecutively from the
/// state's next withdrawal index; each from a distinct validator, for exactly what
/// that validator may withdraw and no more than its balance, paid to the address in
/// its credential; and in the order in which the sweep reaches their validators from
/// its start.
pub proof fn law_expected_withdrawals_shape(state: BeaconState, context: Context, max_withdrawals: int)
    requires
        spec_expected_withdrawals(state, context, max_withdrawals) is Some,
    ensures
        ({
            let ws = spec_expected_withdrawals(state, context, max_withdrawals)->Some_0;
            let epoch = spec_current_epoch(state, context);
            &&& ws.len() <= spec_sweep_bound(state)
            &&& max_withdrawals > 0 ==> ws.len() <= max_withdrawals
            &&& forall|j: int| 0 <= j < ws.len() ==> (#[trigger] ws[j]).index == state.next_withdrawal_index + j
            &&& forall|j: int|
                0 <= j < ws.len() ==> {
                    let w = #[trigger] ws[j];
                    &&& 0 <= w.validator_index < state.validators@.len()
                    &&& w.validator_index < state.balances@.len()
                    &&& spec_sweep_amount(
                        state.validators@[w.validator_index],
                        state.balances@[w.validator_index],
                        epoch,
                        context,
                    ) == Some(w.amount)
                    &&& 0 <= w.amount <= state.balances@[w.validator_index]
                    &&& w.address == spec_withdrawal_address(state.validators@[w.validator_index])
                }
            &&& spec_withdrawals_separate(state.balances@, ws)
            &&& forall|j1: int, j2: int|
                0 <= j1 < j2 < ws.len() ==> spec_sweep_offset(
                    #[trigger] ws[j1].validator_index,
                    state.next_withdrawal_validator_index as int,
                    state.validators@.len() as int,
                ) < spec_sweep_offset(
                    #[trigger] ws[j2].validator_index,
                    state.next_withdrawal_validator_index as int,
                    state.validators@.len() as int,
                )
        }),
{
    let ws = spec_expected_withdrawals(state, context, max_withdrawals)->Some_0;
    lemma_expected_withdrawals(state, context, max_withdrawals);
    let epoch = spec_current_epoch(state, context);
    let bound = spec_sweep_bound(state) as nat;
    let start = state.next_withdrawal_validator_index as int;
    let len = state.validators@.len() as int;
    assert forall|j: int| 0 <= j < ws.len() implies (#[trigger] ws[j]).index == state.next_withdrawal_index + j by {
        assert(spec_sweep_entry(state.validators@, state.balances@, epoch, context, bound, start,
            state.next_withdrawal_index as int, 0, ws[j], j));
    }
    assert forall|j: int| 0 <= j < ws.len() implies {
        let w = #[trigger] ws[j];
        &&& 0 <= w.validator_index < state.validators@.len()
        &&& w.validator_index < state.balances@.len()
        &&& spec_sweep_amount(
            state.validators@[w.validator_index],
            state.balances@[w.validator_index],
            epoch,
            context,
        ) == Some(w.amount)
        &&& 0 <= w.amount <= state.balances@[w.validator_index]
        &&& w.address == spec_withdrawal_address(state.validators@[w.validator_index])
    } by {
        assert(spec_sweep_entry(state.validators@, state.balances@, epoch, context, bound, start,
            state.next_withdrawal_index as int, 0, ws[j], j));
    }
    assert forall|j1: int, j2: int|
        0 <= j1 < ws.len() && 0 <= j2 < ws.len() && j1 != j2 implies (#[trigger] ws[j1]).validator_index
        != (#[trigger] ws[j2]).validator_index by {
        assert(spec_sweep_entry(state.validators@, state.balances@, epoch, context, bound, start,
            state.next_withdrawal_index as int, 0, ws[j1], j1));
        assert(spec_sweep_entry(state.validators@, state.balances@, epoch, context, bound, start,
            state.next_withdrawal_index as int, 0, ws[j2], j2));
        if ws.len() > 0 {
            assert(0 <= start < len);
        }
        if ws[j1].validator_index == ws[j2].validator_index {
            if j1 < j2 {
                assert(spec_sweep_offset(ws[j1].validator_index, start, len) < spec_sweep_offset(
                    ws[j2].validator_index, start, len));
            } else {
                assert(spec_sweep_offset(ws[j2].validator_index, start, len) < spec_sweep_offset(
                    ws[j1].validator_index, start, len));
            }
        }
    }
}

/// Balances are conserved: taking the expected withdrawals lowers the total balance by
/// exactly the total withdrawn, lowers each withdrawn validator's balance by its
/// amount, and leaves every other balance as it was.
pub proof fn law_withdrawals_conserve_balance(
    state: BeaconState,
    context: Context,
    max_withdrawals: int,
)
    requires
        spec_expected_withdrawals(state, context, max_withdrawals) is Some,
    ensures
        ({
            let ws = spec_expected_withdrawals(state, context, max_withdrawals)->Some_0;
            let after = spec_apply_withdrawals(state.balances@, ws);
            &&& after.len() == state.balances@.len()
            &&& spec_balance_sum(after) == spec_balance_sum(state.balances@) - spec_withdrawn_total(ws)
            &&& forall|j: int|
                0 <= j < ws.len() ==> after[(#[trigger] ws[j]).validator_index]
                    == state.balances@[ws[j].validator_index] - ws[j].amount
            &&& forall|i: int|
                0 <= i < state.balances@.len() && (forall|j: int|
                    0 <= j < ws.len() ==> (#[trigger] ws[j]).validator_index != i) ==> after[i]
                    == state.balances@[i]
        }),
{
    let ws = spec_expected_withdrawals(state, context, max_withdrawals)->Some_0;
    law_expected_withdrawals_shape(state, context, max_withdrawals);
    lemma_apply_prefix(state.balances@, ws, ws.len() as int);
    assert(ws.take(ws.len() as int) =~= ws);
}

/// After a block's withdrawals the withdrawal index has moved on by exactly the
/// number of withdrawals, and the next sweep starts at a validator that exists.
pub proof fn law_withdrawal_cursors(
    state: BeaconState,
    payload: ExecutionPayload,
    context: Context,
    max_withdrawals: int,
)
    requires
        spec_withdrawals_processable(state, payload, context, max_withdrawals),
    ensures
        ({
            let ws = spec_expected_withdrawals(state, context, max_withdrawals)->Some_0;
            &&& spec_next_withdrawal_index(state, ws) == state.next_withdrawal_index + ws.len()
            &&& 0 <= spec_next_withdrawal_validator_index(state, ws, max_withdrawals)
                < state.validators@.len()
        }),
{
    let ws = spec_expected_withdrawals(state, context, max_withdrawals)->Some_0;
    law_expected_withdrawals_shape(state, context, max_withdrawals);
    if ws.len() > 0 {
        assert(ws[ws.len() - 1].index == state.next_withdrawal_index + (ws.len() - 1));
        assert(0 <= ws[ws.len() - 1].validator_index < state.validators@.len());
    }
}

/// Whether every validator's withdrawal credential has its fixed width.
pub fn check_validators_wf(state: &BeaconState) -> (r: bool)
    ensures
        r == state.validators_wf(),
{
    let mut i: usize = 0;
    while i < state.validators.len()
        invariant
            0 <= i <= state.validators@.len(),
            forall|j: int| 0 <= j < i ==> (#[trigger] state.validators@[j]).wf(),
        decreases state.validators@.len() - i,
    {
        if state.validators[i].withdrawal_credentials.len() != 32 {
            assert(!state.validators@[i as int].wf());
            return false;
        }
        i = i + 1;
    }
    true
}

/// Whether two withdrawals are the same.
pub fn withdrawal_equal(a: &Withdrawal, b: &Withdrawal) -> (r: bool)
    ensures
        r == (a@ == b@),
{
    a.index == b.index && a.validator_index == b.validator_index && bytes_equal(&a.address, &b.address)
        && a.amount == b.amount
}

/// Whether `process_withdrawals` may be called: exactly `spec_withdrawals_processable`.
pub fn check_withdrawals_processable<const MAX_WITHDRAWALS_PER_PAYLOAD: usize>(
    state: &BeaconState,
    payload: &ExecutionPayload,
    context: &Context,
) -> (r: bool)
    ensures
        r == spec_withdrawals_processable(
            *state,
            *payload,
            *context,
            MAX_WITHDRAWALS_PER_PAYLOAD as int,
        ),
{
    if context.slots_per_epoch == 0 || !check_validators_wf(state) {
        return false;
    }
    let found = try_expected_withdrawals::<MAX_WITHDRAWALS_PER_PAYLOAD>(state, context);
    let expected = match found {
        Some(ws) => ws,
        None => {
            return false;
        },
    };
    let ghost expected_spec = withdrawals_view(expected@);
    let n = expected.len();
    if payload.withdrawals.len() != n {
        return false;
    }
    let mut i: usize = 0;
    while i < n
        invariant
            0 <= i <= n,
            n == expected@.len(),
            n == payload.withdrawals@.len(),
            expected_spec == withdrawals_view(expected@),
            expected_spec == spec_expected_withdrawals(
                *state,
                *context,
                MAX_WITHDRAWALS_PER_PAYLOAD as int,
            )->Some_0,
            forall|j: int| 0 <= j < i ==> (#[trigger] payload.withdrawals@[j])@ == expected@[j]@,
        decreases n - i,
    {
        if !withdrawal_equal(&payload.withdrawals[i], &expected[i]) {
            assert(withdrawals_view(payload.withdrawals@)[i as int] != expected_spec[i as int]);
            return false;
        }
        i = i + 1;
    }
    assert(withdrawals_view(payload.withdrawals@) =~= expected_spec);
    if n == MAX_WITHDRAWALS_PER_PAYLOAD {
        n > 0
    } else {
        state.validators.len() > 0 && state.next_withdrawal_validator_index <= usize::MAX
            - MAX_VALIDATORS_PER_WITHDRAWALS_SWEEP
    }
}

proof fn lemma_sweep_limits(
    validators: Seq<Validator>,
    balances: Seq<u64>,
    epoch: u64,
    context: Context,
    small: int,
    large: int,
    steps: nat,
    vi: int,
    wi: int,
    acc: Seq<WithdrawalSpec>,
)
    requires
        spec_sweep(validators, balances, epoch, context, large, steps, vi, wi, acc) is Some,
        steps <= validators.len(),
        acc.len() < small <= large,
    ensures
        ({
            let r_large = spec_sweep(validators, balances, epoch, context, large, steps, vi, wi, acc)->Some_0;
            let r_small = spec_sweep(validators, balances, epoch, context, small, steps, vi, wi, acc);
            &&& r_small is Some
            &&& r_small->Some_0 == r_large.take(if small < r_large.len() { small } else { r_large.len() as int })
        }),
    decreases steps,
{
    let r_large = spec_sweep(validators, balances, epoch, context, large, steps, vi, wi, acc)->Some_0;
    if steps == 0 {
        assert(r_large.take(r_large.len() as int) =~= r_large);
    } else {
        let len = validators.len() as int;
        let validator = validators[vi];
        let balance = balances[vi];
        let next_vi = (vi + 1) % len;
        lemma_next_validator_index(vi, len);
        match spec_sweep_amount(validator, balance, epoch, context) {
            Some(amount) => {
                let acc2 = acc.push(
                    WithdrawalSpec {
                        index: wi,
                        validator_index: vi,
                        address: spec_withdrawal_address(validator),
                        amount,
                    },
                );
                if acc2.len() == small {
                    if acc2.len() == large {
                        assert(r_large.take(small) =~= r_large);
                    } else {
                        lemma_sweep(
                            validators,
                            balances,
                            epoch,
                            context,
                            large,
                            (steps - 1) as nat,
                            next_vi,
                            wi + 1,
                            acc2,
                        );
                        assert(r_large.take(small) =~= r_large.subrange(0, acc2.len() as int));
                    }
                } else {
                    lemma_sweep_limits(
                        validators,
                        balances,
                        epoch,
                        context,
                        small,
                        large,
                        (steps - 1) as nat,
                        next_vi,
                        wi + 1,
                        acc2,
                    );
                }
            },
            None => {
                lemma_sweep_limits(
                    validators,
                    balances,
                    epoch,
                    context,
                    small,
                    large,
                    (steps - 1) as nat,
                    next_vi,
                    wi,
                    acc,
                );
            },
        }
    }
}

/// A larger payload limit only extends the expected withdrawals: with limits
/// `1 <= small <= large`, where the sweep under `large` can be carried out, so can the
/// sweep under `small`, and it finds the first `small` of the withdrawals the sweep
/// under `large` finds (all of them, if there are fewer).
pub proof fn law_payload_limit_extends(
    state: BeaconState,
    context: Context,
    small: int,
    large: int,
)
    requires
        1 <= small <= large,
        spec_expected_withdrawals(state, context, large) is Some,
    ensures
        spec_expected_withdrawals(state, context, small) is Some,
        ({
            let ws_large = spec_expected_withdrawals(state, context, large)->Some_0;
            spec_expected_withdrawals(state, context, small)->Some_0 == ws_large.take(
                if small < ws_large.len() { small } else { ws_large.len() as int },
            )
        }),
{
    lemma_sweep_limits(
        state.validators@,
        state.balances@,
        spec_current_epoch(state, context),
        context,
        small,
        large,
        spec_sweep_bound(state) as nat,
        state.next_withdrawal_validator_index as int,
        state.next_withdrawal_index as int,
        Seq::empty(),
    );
}

/// Withdrawal indices continue across blocks and are never reused: after a block's
/// withdrawals, the next block's expected withdrawals are numbered from just past the
/// last index this block used.
pub proof fn law_withdrawal_indices_continue(
    before: BeaconState,
    after: BeaconState,
    payload: ExecutionPayload,
    context: Context,
    max_withdrawals: int,
)
    requires
        spec_withdrawals_processable(before, payload, context, max_withdrawals),
        spec_withdrawals_applied(after, before, context, max_withdrawals),
        spec_expected_withdrawals(after, context, max_withdrawals) is Some,
    ensures
        forall|j: int|
            0 <= j < spec_expected_withdrawals(after, context, max_withdrawals)->Some_0.len()
                ==> (#[trigger] spec_expected_withdrawals(after, context, max_withdrawals)->Some_0[j]).index
                == before.next_withdrawal_index + spec_expected_withdrawals(
                before,
                context,
                max_withdrawals,
            )->Some_0.len() + j,
{
    law_withdrawal_cursors(before, payload, context, max_withdrawals);
    law_expected_withdrawals_shape(after, context, max_withdrawals);
}

/// Some withdrawal at position `lo` or later in `ws` is from validator `x`.
pub open spec fn spec_withdraws_from(ws: Seq<WithdrawalSpec>, lo: int, x: int) -> bool {
    exists|j: int| #![trigger ws[j]] lo <= j < ws.len() && ws[j].validator_index == x
}

/// The sweep from `start` over `len` validators reaches `x` within `steps` steps and,
/// where it found `found` withdrawals and stopped at the limit, no later than the
/// last validator it withdrew from.
pub open spec fn spec_reached_before_stop(
    found: Seq<WithdrawalSpec>,
    max_withdrawals: int,
    steps: nat,
    start: int,
    len: int,
    x: int,
) -> bool {
    &&& 0 <= x < len
    &&& 0 <= spec_sweep_offset(x, start, len) < steps
    &&& (found.len() < max_withdrawals || spec_sweep_offset(x, start, len) <= spec_sweep_offset(
        found.last().validator_index,
        start,
        len,
    ))
}

proof fn lemma_offset_step(x: int, vi: int, len: int)
    requires
        0 <= vi < len,
        0 <= x < len,
    ensures
        spec_sweep_offset(vi, (vi + 1) % len, len) == len - 1,
        x != vi ==> spec_sweep_offset(x, vi, len) == spec_sweep_offset(x, (vi + 1) % len, len) + 1,
        spec_sweep_offset(x, vi, len) == 0 ==> x == vi,
{
    lemma_next_validator_index(vi, len);
}

proof fn lemma_sweep_complete(
    validators: Seq<Validator>,
    balances: Seq<u64>,
    epoch: u64,
    context: Context,
    max_withdrawals: int,
    steps: nat,
    vi: int,
    wi: int,
    acc: Seq<WithdrawalSpec>,
)
    requires
        spec_sweep(validators, balances, epoch, context, max_withdrawals, steps, vi, wi, acc) is Some,
        steps <= validators.len(),
        acc.len() < max_withdrawals,
    ensures
        ({
            let r = spec_sweep(
                validators,
                balances,
                epoch,
                context,
                max_withdrawals,
                steps,
                vi,
                wi,
                acc,
            )->Some_0;
            forall|x: int|
                spec_reached_before_stop(r, max_withdrawals, steps, vi, validators.len() as int, x)
                    && spec_sweep_amount(validators[x], balances[x], epoch, context) is Some
                    ==> #[trigger] spec_withdraws_from(r, acc.len() as int, x)
        }),
    decreases steps,
{
    let r = spec_sweep(validators, balances, epoch, context, max_withdrawals, steps, vi, wi, acc)->Some_0;
    let len = validators.len() as int;
    if steps > 0 {
        let validator = validators[vi];
        let balance = balances[vi];
        let next_vi = (vi + 1) % len;
        lemma_next_validator_index(vi, len);
        match spec_sweep_amount(validator, balance, epoch, context) {
            Some(amount) => {
                let w = WithdrawalSpec {
                    index: wi,
                    validator_index: vi,
                    address: spec_withdrawal_address(validator),
                    amount,
                };
                let acc2 = acc.push(w);
                if acc2.len() == max_withdrawals {
                    assert(r == acc2);
                    assert forall|x: int|
                        spec_reached_before_stop(r, max_withdrawals, steps, vi, len, x)
                            && spec_sweep_amount(validators[x], balances[x], epoch, context) is Some
                        implies #[trigger] spec_withdraws_from(r, acc.len() as int, x) by {
                        lemma_offset_step(x, vi, len);
                        assert(r.last() == w);
                        assert(r[acc.len() as int] == w);
                    }
                } else {
                    lemma_sweep(
                        validators,
                        balances,
                        epoch,
                        context,
                        max_withdrawals,
                        (steps - 1) as nat,
                        next_vi,
                        wi + 1,
                        acc2,
                    );
                    lemma_sweep_complete(
                        validators,
                        balances,
                        epoch,
                        context,
                        max_withdrawals,
                        (steps - 1) as nat,
                        next_vi,
                        wi + 1,
                        acc2,
                    );
                    assert(r[acc.len() as int] == w) by {
                        assert(r.subrange(0, acc2.len() as int)[acc.len() as int] == acc2[acc.len() as int]);
                    }
                    assert forall|x: int|
                        spec_reached_before_stop(r, max_withdrawals, steps, vi, len, x)
                            && spec_sweep_amount(validators[x], balances[x], epoch, context) is Some
                        implies #[trigger] spec_withdraws_from(r, acc.len() as int, x) by {
                        lemma_offset_step(x, vi, len);
                        if x == vi {
                            assert(r[acc.len() as int].validator_index == x);
                        } else {
                            if r.len() >= max_withdrawals {
                                let last = r.len() - 1;
                                assert(spec_sweep_entry(
                                    validators,
                                    balances,
                                    epoch,
                                    context,
                                    (steps - 1) as nat,
                                    next_vi,
                                    wi + 1,
                                    acc2.len() as int,
                                    r[last],
                                    last,
                                ));
                                lemma_offset_step(r[last].validator_index, vi, len);
                            }
                            assert(spec_reached_before_stop(r, max_withdrawals, (steps - 1) as nat, next_vi, len, x));
                            assert(spec_withdraws_from(r, acc2.len() as int, x));
                            let j = choose|j: int| #![trigger r[j]] acc2.len() <= j < r.len() && r[j].validator_index == x;
                            assert(r[j].validator_index == x);
                        }
                    }
                }
            },
            None => {
                lemma_sweep(
                    validators,
                    balances,
                    epoch,
                    context,
                    max_withdrawals,
                    (steps - 1) as nat,
                    next_vi,
                    wi,
                    acc,
                );
                lemma_sweep_complete(
                    validators,
                    balances,
                    epoch,
                    context,
                    max_withdrawals,
                    (steps - 1) as nat,
                    next_vi,
                    wi,
                    acc,
                );
                assert forall|x: int|
                    spec_reached_before_stop(r, max_withdrawals, steps, vi, len, x)
                        && spec_sweep_amount(validators[x], balances[x], epoch, context) is Some
                    implies #[trigger] spec_withdraws_from(r, acc.len() as int, x) by {
                    lemma_offset_step(x, vi, len);
                    assert(x != vi);
                    if r.len() >= max_withdrawals {
                        let last = r.len() - 1;
                        assert(spec_sweep_entry(
                            validators,
                            balances,
                            epoch,
                            context,
                            (steps - 1) as nat,
                            next_vi,
                            wi,
                            acc.len() as int,
                            r[last],
                            last,
                        ));
                        lemma_offset_step(r[last].validator_index, vi, len);
                    }
                    assert(spec_reached_before_stop(r, max_withdrawals, (steps - 1) as nat, next_vi, len, x));
                }
            },
        }
    }
}

/// The sweep misses no one: every validator that may withdraw and that the sweep reaches
/// before it stops (within the sweep bound and, where the payload limit was reached,
/// no later than the last validator withdrawn from) is among the expected withdrawals.
pub proof fn law_sweep_complete(state: BeaconState, context: Context, max_withdrawals: int)
    requires
        max_withdrawals > 0,
        spec_expected_withdrawals(state, context, max_withdrawals) is Some,
    ensures
        ({
            let ws = spec_expected_withdrawals(state, context, max_withdrawals)->Some_0;
            forall|x: int|
                spec_reached_before_stop(
                    ws,
                    max_withdrawals,
                    spec_sweep_bound(state) as nat,
                    state.next_withdrawal_validator_index as int,
                    state.validators@.len() as int,
                    x,
                ) && spec_sweep_amount(
                    state.validators@[x],
                    state.balances@[x],
                    spec_current_epoch(state, context),
                    context,
                ) is Some ==> #[trigger] spec_withdraws_from(ws, 0, x)
        }),
{
    lemma_sweep_complete(
        state.validators@,
        state.balances@,
        spec_current_epoch(state, context),
        context,
        max_withdrawals,
        spec_sweep_bound(state) as nat,
        state.next_withdrawal_validator_index as int,
        state.next_withdrawal_index as int,
        Seq::empty(),
    );
}

/// What each expected withdrawal takes: the validator has an execution-address
/// credential; if it is withdrawable by the current epoch and holds a positive balance,
/// the withdrawal takes its whole balance, whatever its effective balance; otherwise its
/// effective balance is the maximum, its balance exceeds it, and the withdrawal takes
/// the balance less `MAX_EFFECTIVE_BALANCE`.
pub proof fn law_withdrawal_amounts(state: BeaconState, context: Context, max_withdrawals: int)
    requires
        context.slots_per_epoch > 0,
        spec_expected_withdrawals(state, context, max_withdrawals) is Some,
    ensures
        forall|j: int|
            0 <= j < spec_expected_withdrawals(state, context, max_withdrawals)->Some_0.len() ==> {
                let w = #[trigger] spec_expected_withdrawals(state, context, max_withdrawals)->Some_0[j];
                let validator = state.validators@[w.validator_index];
                let balance = state.balances@[w.validator_index];
                let epoch = state.slot / context.slots_per_epoch;
                &&& validator.withdrawal_credentials@[0] == 1u8
                &&& (validator.withdrawable_epoch <= epoch && balance > 0) ==> w.amount == balance
                &&& !(validator.withdrawable_epoch <= epoch && balance > 0) ==> {
                    &&& validator.effective_balance == context.max_effective_balance
                    &&& balance > context.max_effective_balance
                    &&& w.amount == balance - MAX_EFFECTIVE_BALANCE
                }
            },
{
    let ws = spec_expected_withdrawals(state, context, max_withdrawals)->Some_0;
    law_expected_withdrawals_shape(state, context, max_withdrawals);
    assert forall|j: int| 0 <= j < ws.len() implies {
        let w = #[trigger] ws[j];
        let validator = state.validators@[w.validator_index];
        let balance = state.balances@[w.validator_index];
        let epoch = state.slot / context.slots_per_epoch;
        &&& validator.withdrawal_credentials@[0] == 1u8
        &&& (validator.withdrawable_epoch <= epoch && balance > 0) ==> w.amount == balance
        &&& !(validator.withdrawable_epoch <= epoch && balance > 0) ==> {
            &&& validator.effective_balance == context.max_effective_balance
            &&& balance > context.max_effective_balance
            &&& w.amount == balance - MAX_EFFECTIVE_BALANCE
        }
    } by {
        let w = ws[j];
        let validator = state.validators@[w.validator_index];
        let balance = state.balances@[w.validator_index];
        assert(spec_sweep_amount(validator, balance, spec_current_epoch(state, context), context)
            == Some(w.amount));
        assert(state.slot / context.slots_per_epoch <= state.slot) by {
            vstd::arithmetic::div_mod::lemma_div_is_ordered_by_denominator(
                state.slot as int,
                1,
                context.slots_per_epoch as int,
            );
        }
        assert(spec_current_epoch(state, context) == state.slot / context.slots_per_epoch);
    }
}

/// Where the next sweep starts and which withdrawal index comes next, after a block's
/// withdrawals: with fewer withdrawals than the payload limit (none included) the start
/// moves on by `MAX_VALIDATORS_PER_WITHDRAWALS_SWEEP`, modulo the number of validators;
/// with a full payload it moves just past the last validator withdrawn from. So with
/// more validators than one sweep visits, a block that does not fill its payload always
/// moves the start. The withdrawal index moves on by the number of withdrawals.
pub proof fn law_next_sweep_start(
    before: BeaconState,
    after: BeaconState,
    payload: ExecutionPayload,
    context: Context,
    max_withdrawals: int,
)
    requires
        spec_withdrawals_processable(before, payload, context, max_withdrawals),
        spec_withdrawals_applied(after, before, context, max_withdrawals),
    ensures
        ({
            let ws = spec_expected_withdrawals(before, context, max_withdrawals)->Some_0;
            let n = before.validators@.len() as int;
            &&& ws.len() != max_withdrawals ==> after.next_withdrawal_validator_index == (
            before.next_withdrawal_validator_index + MAX_VALIDATORS_PER_WITHDRAWALS_SWEEP) % n
            &&& ws.len() == max_withdrawals ==> after.next_withdrawal_validator_index == (
            ws[ws.len() - 1].validator_index + 1) % n
            &&& ws.len() != max_withdrawals && n > MAX_VALIDATORS_PER_WITHDRAWALS_SWEEP
                ==> after.next_withdrawal_validator_index != before.next_withdrawal_validator_index
            &&& after.next_withdrawal_index == before.next_withdrawal_index + ws.len()
        }),
{
    let ws = spec_expected_withdrawals(before, context, max_withdrawals)->Some_0;
    let n = before.validators@.len() as int;
    law_withdrawal_cursors(before, payload, context, max_withdrawals);
    if ws.len() != max_withdrawals && n > MAX_VALIDATORS_PER_WITHDRAWALS_SWEEP {
        let a = before.next_withdrawal_validator_index as int;
        assert(spec_sweep_bound(before) > 0);
        assert(a < n);
        let x = a + MAX_VALIDATORS_PER_WITHDRAWALS_SWEEP;
        if x < n {
            vstd::arithmetic::div_mod::lemma_small_mod(x as nat, n as nat);
        } else {
            vstd::arithmetic::div_mod::lemma_mod_add_multiples_vanish(x - n, n);
            vstd::arithmetic::div_mod::lemma_small_mod((x - n) as nat, n as nat);
        }
    }
}

} // verus!
