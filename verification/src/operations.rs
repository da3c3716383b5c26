use vstd::prelude::*;
use crate::execution_payload::{
    process_execution_payload, spec_execution_payload_error, spec_execution_payload_valid,
    spec_list_bounds_ok, spec_payload_wf, ExecutionEngine,
};
use crate::helpers::bytes_equal;
use crate::types::{
    invalid_operation_error, BeaconState, Context, Error, Eth1Data, ExecutionPayload,
    InvalidDeposit, InvalidOperation,
};
use crate::withdrawals::{
    check_withdrawals_processable, process_withdrawals, spec_withdrawals_applied,
    spec_withdrawals_processable,
};

verus! {

/// A request to move a validator's withdrawal credential from a BLS key to an
/// execution address.
#[derive(Clone, Debug, PartialEq, Eq)]
pub struct BlsToExecutionChange {
    pub validator_index: usize,
    pub from_bls_pubkey: Vec<u8>,
    pub to_execution_address: Vec<u8>,
}

#[derive(Clone, Debug, PartialEq, Eq)]
pub struct SignedBlsToExecutionChange {
    pub message: BlsToExecutionChange,
    pub signature: Vec<u8>,
}

/// The per-operation state transitions that a block's processing hands its contents
/// to, with the types of the operations they take. What each does to the state
/// depends on the implementation alone.
pub trait BlockOperations: Sized {
    type ProposerSlashing;
    type AttesterSlashing;
    type Attestation;
    type Deposit;
    type VoluntaryExit;
    type SyncAggregate;

    fn process_block_header(
        &self,
        state: &mut BeaconState,
        block: &BeaconBlock<Self>,
        context: &Context,
    ) -> Result<(), Error>;

    fn process_randao(
        &self,
        state: &mut BeaconState,
        body: &BeaconBlockBody<Self>,
        context: &Context,
    ) -> Result<(), Error>;

    fn process_eth1_data(&self, state: &mut BeaconState, body: &BeaconBlockBody<Self>, context: &Context);

    fn process_proposer_slashing(
        &self,
        state: &mut BeaconState,
        op: &Self::ProposerSlashing,
        context: &Context,
    ) -> Result<(), Error>;

    fn process_attester_slashing(
        &self,
        state: &mut BeaconState,
        op: &Self::AttesterSlashing,
        context: &Context,
    ) -> Result<(), Error>;

    fn process_attestation(
        &self,
        state: &mut BeaconState,
        op: &Self::Attestation,
        context: &Context,
    ) -> Result<(), Error>;

    fn process_deposit(
        &self,
        state: &mut BeaconState,
        op: &Self::Deposit,
        context: &Context,
    ) -> Result<(), Error>;

    fn process_voluntary_exit(
        &self,
        state: &mut BeaconState,
        op: &Self::VoluntaryExit,
        context: &Context,
    ) -> Result<(), Error>;

    fn process_sync_aggregate(
        &self,
        state: &mut BeaconState,
        sync_aggregate: &Self::SyncAggregate,
        context: &Context,
    ) -> Result<(), Error>;
}

pub struct BeaconBlockBody<O: BlockOperations> {
    pub randao_reveal: Vec<u8>,
    pub eth1_data: Eth1Data,
    pub graffiti: Vec<u8>,
    pub proposer_slashings: Vec<O::ProposerSlashing>,
    pub attester_slashings: Vec<O::AttesterSlashing>,
    pub attestations: Vec<O::Attestation>,
    pub deposits: Vec<O::Deposit>,
    pub voluntary_exits: Vec<O::VoluntaryExit>,
    pub sync_aggregate: O::SyncAggregate,
    pub execution_payload: ExecutionPayload,
    pub bls_to_execution_changes: Vec<SignedBlsToExecutionChange>,
}

pub struct BeaconBlock<O: BlockOperations> {
    pub slot: u64,
    pub proposer_index: usize,
    pub parent_root: Vec<u8>,
    pub state_root: Vec<u8>,
    pub body: BeaconBlockBody<O>,
}

/// How many deposits a block must carry: all pending ones, up to the per-block maximum.
pub open spec fn spec_expected_deposit_count(state: BeaconState, context: Context) -> int {
    let pending = ((state.eth1_data.deposit_count - state.eth1_deposit_index) as u64) as usize;
    if context.max_deposits <= pending {
        context.max_deposits as int
    } else {
        pending as int
    }
}

/// The body carries no operation of any kind.
pub open spec fn spec_no_operations<O: BlockOperations>(body: BeaconBlockBody<O>) -> bool {
    &&& body.proposer_slashings@.len() == 0
    &&& body.attester_slashings@.len() == 0
    &&& body.attestations@.len() == 0
    &&& body.deposits@.len() == 0
    &&& body.voluntary_exits@.len() == 0
    &&& body.bls_to_execution_changes@.len() == 0
}

/// Applies a signed change of withdrawal credential. Its transition is not defined
/// yet: every call is refused with `NotImplemented` and leaves the state as it was.
pub fn process_bls_to_execution_change(
    state: &mut BeaconState,
    _signed_address_change: &SignedBlsToExecutionChange,
    _context: &Context,
) -> (r: Result<(), Error>)
    ensures
        r == Err::<(), Error>(Error::NotImplemented),
        *final(state) == *old(state),
{
    Err(Error::NotImplemented)
}

/// Checks that the block carries the expected number of deposits, then applies the
/// block's operations in order: proposer slashings, attester slashings, attestations,
/// deposits, voluntary exits, credential changes. The first refusal is returned.
pub fn process_operations<O: BlockOperations>(
    state: &mut BeaconState,
    body: &BeaconBlockBody<O>,
    operations: &O,
    context: &Context,
) -> (r: Result<(), Error>)
    requires
        old(state).eth1_deposit_index <= old(state).eth1_data.deposit_count,
    ensures
        body.deposits@.len() != spec_expected_deposit_count(*old(state), *context) ==> r == Err::<
            (),
            Error,
        >(
            Error::InvalidOperation(
                InvalidOperation::Deposit(
                    InvalidDeposit::IncorrectCount {
                        expected: spec_expected_deposit_count(*old(state), *context) as usize,
                        count: body.deposits@.len() as usize,
                    },
                ),
            ),
        ) && *final(state) == *old(state),
        r is Ok ==> body.deposits@.len() == spec_expected_deposit_count(*old(state), *context)
            && body.bls_to_execution_changes@.len() == 0,
        body.deposits@.len() == spec_expected_deposit_count(*old(state), *context)
            && spec_no_operations(*body) ==> r is Ok && *final(state) == *old(state),
{
    let pending = (state.eth1_data.deposit_count - state.eth1_deposit_index) as usize;
    let expected_deposit_count = if context.max_deposits <= pending {
        context.max_deposits
    } else {
        pending
    };
    if body.deposits.len() != expected_deposit_count {
        return Err(
            invalid_operation_error(
                InvalidOperation::Deposit(
                    InvalidDeposit::IncorrectCount {
                        expected: expected_deposit_count,
                        count: body.deposits.len(),
                    },
                ),
            ),
        );
    }
    let mut i: usize = 0;
    while i < body.proposer_slashings.len()
        invariant
            body.deposits@.len() == spec_expected_deposit_count(*old(state), *context),
            spec_no_operations(*body) ==> *state == *old(state),
        decreases body.proposer_slashings@.len() - i,
    {
        match operations.process_proposer_slashing(state, &body.proposer_slashings[i], context) {
            Ok(()) => {},
            Err(e) => {
                return Err(e);
            },
        }
        i = i + 1;
    }
    let mut i: usize = 0;
    while i < body.attester_slashings.len()
        invariant
            body.deposits@.len() == spec_expected_deposit_count(*old(state), *context),
            spec_no_operations(*body) ==> *state == *old(state),
        decreases body.attester_slashings@.len() - i,
    {
        match operations.process_attester_slashing(state, &body.attester_slashings[i], context) {
            Ok(()) => {},
            Err(e) => {
                return Err(e);
            },
        }
        i = i + 1;
    }
    let mut i: usize = 0;
    while i < body.attestations.len()
        invariant
            body.deposits@.len() == spec_expected_deposit_count(*old(state), *context),
            spec_no_operations(*body) ==> *state == *old(state),
        decreases body.attestations@.len() - i,
    {
        match operations.process_attestation(state, &body.attestations[i], context) {
            Ok(()) => {},
            Err(e) => {
                return Err(e);
            },
        }
        i = i + 1;
    }
    let mut i: usize = 0;
    while i < body.deposits.len()
        invariant
            body.deposits@.len() == spec_expected_deposit_count(*old(state), *context),
            spec_no_operations(*body) ==> *state == *old(state),
        decreases body.deposits@.len() - i,
    {
        match operations.process_deposit(state, &body.deposits[i], context) {
            Ok(()) => {},
            Err(e) => {
                return Err(e);
            },
        }
        i = i + 1;
    }
    let mut i: usize = 0;
    while i < body.voluntary_exits.len()
        invariant
            body.deposits@.len() == spec_expected_deposit_count(*old(state), *context),
            spec_no_operations(*body) ==> *state == *old(state),
        decreases body.voluntary_exits@.len() - i,
    {
        match operations.process_voluntary_exit(state, &body.voluntary_exits[i], context) {
            Ok(()) => {},
            Err(e) => {
                return Err(e);
            },
        }
        i = i + 1;
    }
    let mut i: usize = 0;
    while i < body.bls_to_execution_changes.len()
        invariant
            i == 0,
            body.deposits@.len() == spec_expected_deposit_count(*old(state), *context),
            spec_no_operations(*body) ==> *state == *old(state),
        decreases body.bls_to_execution_changes@.len() - i,
    {
        match process_bls_to_execution_change(state, &body.bls_to_execution_changes[i], context) {
            Ok(()) => {},
            Err(e) => {
                return Err(e);
            },
        }
        i = i + 1;
    }
    Ok(())
}

/// Processes a block: its header, the payload's withdrawals, the execution payload,
/// the randao reveal, the eth1 vote, the operations and the sync aggregate, in that
/// order, stopping at the first refusal. Everything after the header step is
/// `process_block_after_header`, run on the state that the header step leaves.
pub fn process_block<
    const MAX_BYTES_PER_TRANSACTION: usize,
    const MAX_TRANSACTIONS_PER_PAYLOAD: usize,
    const MAX_WITHDRAWALS_PER_PAYLOAD: usize,
    O: BlockOperations,
    E: ExecutionEngine,
>(
    state: &mut BeaconState,
    block: &BeaconBlock<O>,
    execution_engine: &E,
    operations: &O,
    context: &Context,
) -> (r: Result<(), Error>)
    requires
        context.slots_per_epoch > 0,
        spec_payload_wf(
            block.body.execution_payload,
            MAX_BYTES_PER_TRANSACTION as int,
            MAX_TRANSACTIONS_PER_PAYLOAD as int,
            MAX_WITHDRAWALS_PER_PAYLOAD as int,
        ),
        spec_list_bounds_ok(
            MAX_BYTES_PER_TRANSACTION as int,
            MAX_TRANSACTIONS_PER_PAYLOAD as int,
            MAX_WITHDRAWALS_PER_PAYLOAD as int,
        ),
    ensures
        r is Ok ==> block.body.bls_to_execution_changes@.len() == 0,
{
    match operations.process_block_header(state, block, context) {
        Ok(()) => {},
        Err(e) => {
            return Err(e);
        },
    }
    process_block_after_header::<
        MAX_BYTES_PER_TRANSACTION,
        MAX_TRANSACTIONS_PER_PAYLOAD,
        MAX_WITHDRAWALS_PER_PAYLOAD,
        O,
        E,
    >(state, block, execution_engine, operations, context)
}

/// The payload builds on the state's latest execution block.
pub open spec fn spec_parent_matches(state: BeaconState, payload: ExecutionPayload) -> bool {
    payload.parent_hash@ == state.latest_execution_payload_header.block_hash@
}

/// Processes a block on the state that its header step left: the payload's
/// withdrawals, the execution payload, the randao reveal, the eth1 vote, the
/// operations and the sync aggregate, in that order, stopping at the first refusal.
/// Where the state cannot take the withdrawals step (the payload's withdrawals are not
/// the expected ones, or the sweep cannot be carried out) it answers
/// `InvalidWithdrawals` and changes nothing. Where the payload builds on the latest
/// block but the state holds no randao mix, it answers `InvalidState` after the
/// withdrawals. Where the payload fails its checks, it answers the checks' error after
/// the withdrawals. Where the eth1 step leaves a deposit index above the deposit count,
/// it answers `InvalidState`.
pub fn process_block_after_header<
    const MAX_BYTES_PER_TRANSACTION: usize,
    const MAX_TRANSACTIONS_PER_PAYLOAD: usize,
    const MAX_WITHDRAWALS_PER_PAYLOAD: usize,
    O: BlockOperations,
    E: ExecutionEngine,
>(
    state: &mut BeaconState,
    block: &BeaconBlock<O>,
    execution_engine: &E,
    operations: &O,
    context: &Context,
) -> (r: Result<(), Error>)
    requires
        context.slots_per_epoch > 0,
        spec_payload_wf(
            block.body.execution_payload,
            MAX_BYTES_PER_TRANSACTION as int,
            MAX_TRANSACTIONS_PER_PAYLOAD as int,
            MAX_WITHDRAWALS_PER_PAYLOAD as int,
        ),
        spec_list_bounds_ok(
            MAX_BYTES_PER_TRANSACTION as int,
            MAX_TRANSACTIONS_PER_PAYLOAD as int,
            MAX_WITHDRAWALS_PER_PAYLOAD as int,
        ),
    ensures
        !spec_withdrawals_processable(
            *old(state),
            block.body.execution_payload,
            *context,
            MAX_WITHDRAWALS_PER_PAYLOAD as int,
        ) ==> r == Err::<(), Error>(Error::InvalidWithdrawals) && *final(state) == *old(state),
        spec_withdrawals_processable(
            *old(state),
            block.body.execution_payload,
            *context,
            MAX_WITHDRAWALS_PER_PAYLOAD as int,
        ) && spec_parent_matches(*old(state), block.body.execution_payload)
            && old(state).randao_mixes@.len() == 0 ==> r == Err::<(), Error>(Error::InvalidState)
            && spec_withdrawals_applied(
            *final(state),
            *old(state),
            *context,
            MAX_WITHDRAWALS_PER_PAYLOAD as int,
        ),
        spec_withdrawals_processable(
            *old(state),
            block.body.execution_payload,
            *context,
            MAX_WITHDRAWALS_PER_PAYLOAD as int,
        ) && !(spec_parent_matches(*old(state), block.body.execution_payload)
            && old(state).randao_mixes@.len() == 0) && !spec_execution_payload_valid(
            *old(state),
            block.body.execution_payload,
            *context,
        ) ==> (r matches Err(e) && spec_execution_payload_error(
            *old(state),
            block.body.execution_payload,
            *context,
            e,
        )) && spec_withdrawals_applied(
            *final(state),
            *old(state),
            *context,
            MAX_WITHDRAWALS_PER_PAYLOAD as int,
        ),
        r is Ok ==> spec_withdrawals_processable(
            *old(state),
            block.body.execution_payload,
            *context,
            MAX_WITHDRAWALS_PER_PAYLOAD as int,
        ) && spec_execution_payload_valid(*old(state), block.body.execution_payload, *context)
            && block.body.bls_to_execution_changes@.len() == 0,
{
    let payload = &block.body.execution_payload;
    if !check_withdrawals_processable::<MAX_WITHDRAWALS_PER_PAYLOAD>(state, payload, context) {
        return Err(Error::InvalidWithdrawals);
    }
    match process_withdrawals::<MAX_WITHDRAWALS_PER_PAYLOAD>(state, payload, context) {
        Ok(()) => {},
        Err(e) => {
            return Err(e);
        },
    }
    if state.randao_mixes.len() == 0 && bytes_equal(
        &payload.parent_hash,
        &state.latest_execution_payload_header.block_hash,
    ) {
        return Err(Error::InvalidState);
    }
    match process_execution_payload::<
        MAX_BYTES_PER_TRANSACTION,
        MAX_TRANSACTIONS_PER_PAYLOAD,
        MAX_WITHDRAWALS_PER_PAYLOAD,
        E,
    >(state, payload, execution_engine, context) {
        Ok(()) => {},
        Err(e) => {
            return Err(e);
        },
    }
    match operations.process_randao(state, &block.body, context) {
        Ok(()) => {},
        Err(e) => {
            return Err(e);
        },
    }
    operations.process_eth1_data(state, &block.body, context);
    if state.eth1_deposit_index > state.eth1_data.deposit_count {
        return Err(Error::InvalidState);
    }
    match process_operations(state, &block.body, operations, context) {
        Ok(()) => {},
        Err(e) => {
            return Err(e);
        },
    }
    operations.process_sync_aggregate(state, &block.body.sync_aggregate, context)
}

} // verus!
