use vstd::prelude::*;
use crate::helpers::{
    bytes_equal, compute_timestamp_at_slot, get_current_epoch, get_randao_mix, spec_current_epoch,
    spec_randao_mix_index, spec_timestamp_at_slot,
};
use crate::ssz::{
    address_root, byte_list_root, list_root, root_of_four_chunks, spec_bytes_chunk,
    spec_uint_chunk, ssz_byte_list_root, ssz_list_root, ssz_root_of_chunks, u64_root, usize_root,
};
use crate::types::{
    invalid_operation_error, BeaconState, Context, Error, ExecutionPayload,
    ExecutionPayloadHeader, InvalidExecutionPayload, InvalidOperation, Withdrawal,
    WithdrawalSpec,
};

verus! {

/// The engine that executes payloads on the execution layer.
pub trait ExecutionEngine {
    /// Asks the engine to execute `payload` and accept it; what it answers depends on the
    /// engine alone.
    fn verify_and_notify_new_payload(&self, payload: &ExecutionPayload) -> Result<(), Error>;
}

/// The SSZ root of a withdrawal: the root of its four fields' chunks.
pub open spec fn spec_withdrawal_root(w: WithdrawalSpec) -> Seq<u8> {
    ssz_root_of_chunks(
        seq![
            spec_uint_chunk(w.index),
            spec_uint_chunk(w.validator_index),
            spec_bytes_chunk(w.address),
            spec_uint_chunk(w.amount),
        ],
    )
}

/// The SSZ root of a list of withdrawals bounded by `limit`.
pub open spec fn spec_withdrawals_root(limit: nat, ws: Seq<Withdrawal>) -> Seq<u8> {
    ssz_list_root(limit, ws.map_values(|w: Withdrawal| spec_withdrawal_root(w@)))
}

/// The SSZ root of a list of transactions bounded by `max_transactions`, each a byte
/// list bounded by `max_bytes`.
pub open spec fn spec_transactions_root(
    max_bytes: nat,
    max_transactions: nat,
    transactions: Seq<Vec<u8>>,
) -> Seq<u8> {
    ssz_list_root(
        max_transactions,
        transactions.map_values(|t: Vec<u8>| ssz_byte_list_root(max_bytes, t@)),
    )
}

/// The payload's lists fit the bounds of their types, and its addresses have their width.
pub open spec fn spec_payload_wf(
    payload: ExecutionPayload,
    max_bytes: int,
    max_transactions: int,
    max_withdrawals: int,
) -> bool {
    &&& payload.transactions@.len() <= max_transactions
    &&& forall|i: int|
        0 <= i < payload.transactions@.len() ==> (#[trigger] payload.transactions@[i])@.len()
            <= max_bytes
    &&& payload.withdrawals@.len() <= max_withdrawals
    &&& forall|i: int|
        0 <= i < payload.withdrawals@.len() ==> (#[trigger] payload.withdrawals@[i]).address@.len()
            == 20
}

/// The list bounds are ones that SSZ merkleization can root.
pub open spec fn spec_list_bounds_ok(
    max_bytes: int,
    max_transactions: int,
    max_withdrawals: int,
) -> bool {
    &&& max_bytes <= usize::MAX - 31
    &&& max_transactions <= usize::MAX / 2 + 1
    &&& max_withdrawals <= usize::MAX / 2 + 1
}

/// The SSZ root of one withdrawal.
pub fn withdrawal_root(w: &Withdrawal) -> (r: Result<Vec<u8>, Error>)
    requires
        w.address@.len() == 20,
    ensures
        r is Ok,
        r matches Ok(root) ==> root@ == spec_withdrawal_root(w@),
        r matches Ok(root) ==> root@.len() == 32,
{
    let index = match usize_root(w.index) {
        Ok(c) => c,
        Err(_) => {
            return Err(Error::Merkleization);
        },
    };
    let validator_index = match usize_root(w.validator_index) {
        Ok(c) => c,
        Err(_) => {
            return Err(Error::Merkleization);
        },
    };
    let address = match address_root(&w.address) {
        Ok(c) => c,
        Err(_) => {
            return Err(Error::Merkleization);
        },
    };
    let amount = match u64_root(w.amount) {
        Ok(c) => c,
        Err(_) => {
            return Err(Error::Merkleization);
        },
    };
    match root_of_four_chunks(&index, &validator_index, &address, &amount) {
        Ok(root) => Ok(root),
        Err(_) => Err(Error::Merkleization),
    }
}

/// The SSZ root of a list of withdrawals bounded by `MAX_WITHDRAWALS_PER_PAYLOAD`.
pub fn withdrawals_root<const MAX_WITHDRAWALS_PER_PAYLOAD: usize>(ws: &Vec<Withdrawal>) -> (r: Result<
    Vec<u8>,
    Error,
>)
    requires
        ws@.len() <= MAX_WITHDRAWALS_PER_PAYLOAD,
        MAX_WITHDRAWALS_PER_PAYLOAD <= usize::MAX / 2 + 1,
        forall|i: int| 0 <= i < ws@.len() ==> (#[trigger] ws@[i]).address@.len() == 20,
    ensures
        r is Ok,
        r matches Ok(root) ==> root@ == spec_withdrawals_root(MAX_WITHDRAWALS_PER_PAYLOAD as nat, ws@),
        r matches Ok(root) ==> root@.len() == 32,
{
    let mut roots: Vec<Vec<u8>> = Vec::new();
    let mut i: usize = 0;
    while i < ws.len()
        invariant
            0 <= i <= ws@.len(),
            forall|j: int| 0 <= j < ws@.len() ==> (#[trigger] ws@[j]).address@.len() == 20,
            roots@.len() == i,
            forall|j: int| 0 <= j < i ==> (#[trigger] roots@[j])@ == spec_withdrawal_root(ws@[j]@),
            forall|j: int| 0 <= j < i ==> (#[trigger] roots@[j])@.len() == 32,
        decreases ws@.len() - i,
    {
        let root = match withdrawal_root(&ws[i]) {
            Ok(root) => root,
            Err(e) => {
                return Err(e);
            },
        };
        roots.push(root);
        i = i + 1;
    }
    assert(roots@.map_values(|x: Vec<u8>| x@) =~= ws@.map_values(
        |w: Withdrawal| spec_withdrawal_root(w@),
    ));
    match list_root::<MAX_WITHDRAWALS_PER_PAYLOAD>(&roots) {
        Ok(root) => Ok(root),
        Err(_) => Err(Error::Merkleization),
    }
}

/// The SSZ root of a list of transactions.
pub fn transactions_root<const MAX_BYTES_PER_TRANSACTION: usize, const MAX_TRANSACTIONS_PER_PAYLOAD: usize>(
    transactions: &Vec<Vec<u8>>,
) -> (r: Result<Vec<u8>, Error>)
    requires
        transactions@.len() <= MAX_TRANSACTIONS_PER_PAYLOAD,
        forall|i: int|
            0 <= i < transactions@.len() ==> (#[trigger] transactions@[i])@.len()
                <= MAX_BYTES_PER_TRANSACTION,
        MAX_BYTES_PER_TRANSACTION <= usize::MAX - 31,
        MAX_TRANSACTIONS_PER_PAYLOAD <= usize::MAX / 2 + 1,
    ensures
        r is Ok,
        r matches Ok(root) ==> root@ == spec_transactions_root(
            MAX_BYTES_PER_TRANSACTION as nat,
            MAX_TRANSACTIONS_PER_PAYLOAD as nat,
            transactions@,
        ),
        r matches Ok(root) ==> root@.len() == 32,
{
    let mut roots: Vec<Vec<u8>> = Vec::new();
    let mut i: usize = 0;
    while i < transactions.len()
        invariant
            0 <= i <= transactions@.len(),
            forall|j: int|
                0 <= j < transactions@.len() ==> (#[trigger] transactions@[j])@.len()
                    <= MAX_BYTES_PER_TRANSACTION,
            MAX_BYTES_PER_TRANSACTION <= usize::MAX - 31,
            roots@.len() == i,
            forall|j: int|
                0 <= j < i ==> (#[trigger] roots@[j])@ == ssz_byte_list_root(
                    MAX_BYTES_PER_TRANSACTION as nat,
                    transactions@[j]@,
                ),
            forall|j: int| 0 <= j < i ==> (#[trigger] roots@[j])@.len() == 32,
        decreases transactions@.len() - i,
    {
        let root = match byte_list_root::<MAX_BYTES_PER_TRANSACTION>(&transactions[i]) {
            Ok(root) => root,
            Err(_) => {
                return Err(Error::Merkleization);
            },
        };
        roots.push(root);
        i = i + 1;
    }
    assert(roots@.map_values(|x: Vec<u8>| x@) =~= transactions@.map_values(
        |t: Vec<u8>| ssz_byte_list_root(MAX_BYTES_PER_TRANSACTION as nat, t@),
    ));
    match list_root::<MAX_TRANSACTIONS_PER_PAYLOAD>(&roots) {
        Ok(root) => Ok(root),
        Err(_) => Err(Error::Merkleization),
    }
}

/// The payload builds on the latest execution block, carries the randao mix of the
/// current epoch, and carries the timestamp of the state's slot.
pub open spec fn spec_execution_payload_valid(
    state: BeaconState,
    payload: ExecutionPayload,
    context: Context,
) -> bool {
    &&& payload.parent_hash@ == state.latest_execution_payload_header.block_hash@
    &&& payload.prev_randao@ == state.randao_mixes@[spec_randao_mix_index(
        state,
        spec_current_epoch(state, context),
    )]@
    &&& spec_timestamp_at_slot(state, state.slot, context) == Some(payload.timestamp)
}

/// `e` is the error that the first of the payload checks to fail reports.
pub open spec fn spec_execution_payload_error(
    state: BeaconState,
    payload: ExecutionPayload,
    context: Context,
    e: Error,
) -> bool {
    let expected_parent = state.latest_execution_payload_header.block_hash@;
    let mix = state.randao_mixes@[spec_randao_mix_index(state, spec_current_epoch(state, context))]@;
    if payload.parent_hash@ != expected_parent {
        e matches Error::InvalidOperation(
            InvalidOperation::ExecutionPayload(
                InvalidExecutionPayload::InvalidParentHash { provided, expected },
            ),
        ) && provided@ == payload.parent_hash@ && expected@ == expected_parent
    } else if payload.prev_randao@ != mix {
        e matches Error::InvalidOperation(
            InvalidOperation::ExecutionPayload(
                InvalidExecutionPayload::InvalidPrevRandao { provided, expected },
            ),
        ) && provided@ == payload.prev_randao@ && expected@ == mix
    } else {
        match spec_timestamp_at_slot(state, state.slot, context) {
            None => e == (if state.slot < context.genesis_slot {
                Error::Underflow
            } else {
                Error::Overflow
            }),
            Some(t) => e == Error::InvalidOperation(
                InvalidOperation::ExecutionPayload(
                    InvalidExecutionPayload::InvalidTimestamp { provided: payload.timestamp, expected: t },
                ),
            ),
        }
    }
}

/// `header` summarizes `payload`, with the given roots of its transactions and withdrawals.
pub open spec fn spec_header_of(
    header: ExecutionPayloadHeader,
    payload: ExecutionPayload,
    transactions_root: Seq<u8>,
    withdrawals_root: Seq<u8>,
) -> bool {
    &&& header.parent_hash@ == payload.parent_hash@
    &&& header.fee_recipient@ == payload.fee_recipient@
    &&& header.state_root@ == payload.state_root@
    &&& header.receipts_root@ == payload.receipts_root@
    &&& header.logs_bloom@ == payload.logs_bloom@
    &&& header.prev_randao@ == payload.prev_randao@
    &&& header.block_number == payload.block_number
    &&& header.gas_limit == payload.gas_limit
    &&& header.gas_used == payload.gas_used
    &&& header.timestamp == payload.timestamp
    &&& header.extra_data@ == payload.extra_data@
    &&& header.base_fee_per_gas@ == payload.base_fee_per_gas@
    &&& header.block_hash@ == payload.block_hash@
    &&& header.transactions_root@ == transactions_root
    &&& header.withdrawals_root@ == withdrawals_root
}

/// The two states agree everywhere but in the latest execution payload header.
pub open spec fn spec_same_but_header(a: BeaconState, b: BeaconState) -> bool {
    &&& a.genesis_time == b.genesis_time
    &&& a.slot == b.slot
    &&& a.eth1_data == b.eth1_data
    &&& a.eth1_deposit_index == b.eth1_deposit_index
    &&& a.validators == b.validators
    &&& a.balances == b.balances
    &&& a.randao_mixes == b.randao_mixes
    &&& a.next_withdrawal_index == b.next_withdrawal_index
    &&& a.next_withdrawal_validator_index == b.next_withdrawal_validator_index
}

/// Checks that the payload builds on the latest execution block, carries the current
/// randao mix, and carries the timestamp of the state's slot, in that order.
pub fn check_execution_payload(
    state: &BeaconState,
    payload: &ExecutionPayload,
    context: &Context,
) -> (r: Result<(), Error>)
    requires
        payload.parent_hash@ == state.latest_execution_payload_header.block_hash@ ==> {
            &&& context.slots_per_epoch > 0
            &&& state.randao_mixes@.len() > 0
        },
    ensures
        r is Ok <==> spec_execution_payload_valid(*state, *payload, *context),
        r matches Err(e) ==> spec_execution_payload_error(*state, *payload, *context, e),
{
    let parent_hash_invalid = !bytes_equal(
        &payload.parent_hash,
        &state.latest_execution_payload_header.block_hash,
    );
    if parent_hash_invalid {
        return Err(
            invalid_operation_error(
                InvalidOperation::ExecutionPayload(
                    InvalidExecutionPayload::InvalidParentHash {
                        provided: payload.parent_hash.clone(),
                        expected: state.latest_execution_payload_header.block_hash.clone(),
                    },
                ),
            ),
        );
    }
    let current_epoch = get_current_epoch(state, context);
    let randao_mix = get_randao_mix(state, current_epoch);
    if !bytes_equal(&payload.prev_randao, randao_mix) {
        return Err(
            invalid_operation_error(
                InvalidOperation::ExecutionPayload(
                    InvalidExecutionPayload::InvalidPrevRandao {
                        provided: payload.prev_randao.clone(),
                        expected: randao_mix.clone(),
                    },
                ),
            ),
        );
    }
    let timestamp = match compute_timestamp_at_slot(state, state.slot, context) {
        Ok(t) => t,
        Err(e) => {
            return Err(e);
        },
    };
    if payload.timestamp != timestamp {
        return Err(
            invalid_operation_error(
                InvalidOperation::ExecutionPayload(
                    InvalidExecutionPayload::InvalidTimestamp {
                        provided: payload.timestamp,
                        expected: timestamp,
                    },
                ),
            ),
        );
    }
    Ok(())
}

/// Records `payload` as the latest execution block once the engine has answered: the
/// engine's refusal is passed on with the state untouched; its acceptance sets the
/// latest execution payload header to the payload's summary.
pub fn apply_execution_payload<
    const MAX_BYTES_PER_TRANSACTION: usize,
    const MAX_TRANSACTIONS_PER_PAYLOAD: usize,
    const MAX_WITHDRAWALS_PER_PAYLOAD: usize,
>(state: &mut BeaconState, payload: &ExecutionPayload, engine_result: Result<(), Error>) -> (r: Result<
    (),
    Error,
>)
    requires
        spec_payload_wf(
            *payload,
            MAX_BYTES_PER_TRANSACTION as int,
            MAX_TRANSACTIONS_PER_PAYLOAD as int,
            MAX_WITHDRAWALS_PER_PAYLOAD as int,
        ),
        spec_list_bounds_ok(
            MAX_BYTES_PER_TRANSACTION as int,
            MAX_TRANSACTIONS_PER_PAYLOAD as int,
            MAX_WITHDRAWALS_PER_PAYLOAD as int,
        ),
    ensures
        engine_result is Err ==> r == engine_result && *final(state) == *old(state),
        engine_result is Ok ==> r is Ok && spec_header_of(
            final(state).latest_execution_payload_header,
            *payload,
            spec_transactions_root(
                MAX_BYTES_PER_TRANSACTION as nat,
                MAX_TRANSACTIONS_PER_PAYLOAD as nat,
                payload.transactions@,
            ),
            spec_withdrawals_root(MAX_WITHDRAWALS_PER_PAYLOAD as nat, payload.withdrawals@),
        ) && spec_same_but_header(*final(state), *old(state)),
{
    match engine_result {
        Ok(()) => {},
        Err(e) => {
            return Err(e);
        },
    }
    let transactions_root = match transactions_root::<
        MAX_BYTES_PER_TRANSACTION,
        MAX_TRANSACTIONS_PER_PAYLOAD,
    >(&payload.transactions) {
        Ok(root) => root,
        Err(e) => {
            return Err(e);
        },
    };
    let withdrawals_root = match withdrawals_root::<MAX_WITHDRAWALS_PER_PAYLOAD>(
        &payload.withdrawals,
    ) {
        Ok(root) => root,
        Err(e) => {
            return Err(e);
        },
    };
    state.latest_execution_payload_header = ExecutionPayloadHeader {
        parent_hash: payload.parent_hash.clone(),
        fee_recipient: payload.fee_recipient.clone(),
        state_root: payload.state_root.clone(),
        receipts_root: payload.receipts_root.clone(),
        logs_bloom: payload.logs_bloom.clone(),
        prev_randao: payload.prev_randao.clone(),
        block_number: payload.block_number,
        gas_limit: payload.gas_limit,
        gas_used: payload.gas_used,
        timestamp: payload.timestamp,
        extra_data: payload.extra_data.clone(),
        base_fee_per_gas: payload.base_fee_per_gas.clone(),
        block_hash: payload.block_hash.clone(),
        transactions_root,
        withdrawals_root,
    };
    Ok(())
}

/// Checks an execution payload against the state, has the engine execute it, and
/// records it as the latest execution block.
pub fn process_execution_payload<
    const MAX_BYTES_PER_TRANSACTION: usize,
    const MAX_TRANSACTIONS_PER_PAYLOAD: usize,
    const MAX_WITHDRAWALS_PER_PAYLOAD: usize,
    E: ExecutionEngine,
>(state: &mut BeaconState, payload: &ExecutionPayload, execution_engine: &E, context: &Context) -> (r:
    Result<(), Error>)
    requires
        payload.parent_hash@ == old(state).latest_execution_payload_header.block_hash@ ==> {
            &&& context.slots_per_epoch > 0
            &&& old(state).randao_mixes@.len() > 0
        },
        spec_payload_wf(
            *payload,
            MAX_BYTES_PER_TRANSACTION as int,
            MAX_TRANSACTIONS_PER_PAYLOAD as int,
            MAX_WITHDRAWALS_PER_PAYLOAD as int,
        ),
        spec_list_bounds_ok(
            MAX_BYTES_PER_TRANSACTION as int,
            MAX_TRANSACTIONS_PER_PAYLOAD as int,
            MAX_WITHDRAWALS_PER_PAYLOAD as int,
        ),
    ensures
        !spec_execution_payload_valid(*old(state), *payload, *context) ==> (r matches Err(e)
            && spec_execution_payload_error(*old(state), *payload, *context, e)),
        r is Err ==> *final(state) == *old(state),
        r is Ok ==> spec_execution_payload_valid(*old(state), *payload, *context) && spec_header_of(
            final(state).latest_execution_payload_header,
            *payload,
            spec_transactions_root(
                MAX_BYTES_PER_TRANSACTION as nat,
                MAX_TRANSACTIONS_PER_PAYLOAD as nat,
                payload.transactions@,
            ),
            spec_withdrawals_root(MAX_WITHDRAWALS_PER_PAYLOAD as nat, payload.withdrawals@),
        ) && spec_same_but_header(*final(state), *old(state)),
{
    match check_execution_payload(state, payload, context) {
        Ok(()) => {},
        Err(e) => {
            return Err(e);
        },
    }
    let engine_result = execution_engine.verify_and_notify_new_payload(payload);
    apply_execution_payload::<
        MAX_BYTES_PER_TRANSACTION,
        MAX_TRANSACTIONS_PER_PAYLOAD,
        MAX_WITHDRAWALS_PER_PAYLOAD,
    >(state, payload, engine_result)
}

/// A recorded payload is what the next one must build on: once `header` summarizes
/// `recorded`, a payload passes the parent check exactly when its parent hash is the
/// recorded block's hash.
pub proof fn law_recorded_payload_is_parent(
    state: BeaconState,
    recorded: ExecutionPayload,
    next: ExecutionPayload,
    context: Context,
    transactions_root: Seq<u8>,
    withdrawals_root: Seq<u8>,
)
    requires
        spec_header_of(
            state.latest_execution_payload_header,
            recorded,
            transactions_root,
            withdrawals_root,
        ),
    ensures
        (next.parent_hash@ == state.latest_execution_payload_header.block_hash@) == (
        next.parent_hash@ == recorded.block_hash@),
        next.parent_hash@ != recorded.block_hash@ ==> !spec_execution_payload_valid(
            state,
            next,
            context,
        ),
{
}

/// A payload cannot be applied twice: once recorded, the same payload (whose parent
/// hash differs from its own hash) is refused for its parent hash.
pub proof fn law_payload_not_replayable(
    state: BeaconState,
    payload: ExecutionPayload,
    context: Context,
    transactions_root: Seq<u8>,
    withdrawals_root: Seq<u8>,
    e: Error,
)
    requires
        spec_header_of(
            state.latest_execution_payload_header,
            payload,
            transactions_root,
            withdrawals_root,
        ),
        payload.parent_hash@ != payload.block_hash@,
        spec_execution_payload_error(state, payload, context, e),
    ensures
        !spec_execution_payload_valid(state, payload, context),
        e matches Error::InvalidOperation(
            InvalidOperation::ExecutionPayload(InvalidExecutionPayload::InvalidParentHash { .. }),
        ),
{
}

/// A payload passes its checks exactly when it builds on the latest execution block,
/// carries the randao mix of the current epoch, and carries the timestamp of the state's
/// slot, `genesis_time + (slot - genesis_slot) * seconds_per_slot`: a timestamp earlier
/// or later than that is refused with `InvalidTimestamp`, which reports the payload's
/// timestamp and that one.
pub proof fn law_payload_checks(state: BeaconState, payload: ExecutionPayload, context: Context, e: Error)
    requires
        context.slots_per_epoch > 0,
        state.randao_mixes@.len() > 0,
    ensures
        spec_execution_payload_valid(state, payload, context) <==> {
            &&& payload.parent_hash@ == state.latest_execution_payload_header.block_hash@
            &&& payload.prev_randao@ == state.randao_mixes@[((state.slot / context.slots_per_epoch) as int)
                % (state.randao_mixes@.len() as int)]@
            &&& state.slot >= context.genesis_slot
            &&& payload.timestamp == state.genesis_time + (state.slot - context.genesis_slot)
                * context.seconds_per_slot
        },
        ({
            let t = state.genesis_time + (state.slot - context.genesis_slot) * context.seconds_per_slot;
            &&& payload.parent_hash@ == state.latest_execution_payload_header.block_hash@
            &&& payload.prev_randao@ == state.randao_mixes@[((state.slot / context.slots_per_epoch) as int)
                % (state.randao_mixes@.len() as int)]@
            &&& state.slot >= context.genesis_slot
            &&& t <= u64::MAX
            &&& payload.timestamp != t
            &&& spec_execution_payload_error(state, payload, context, e)
        }) ==> e == Error::InvalidOperation(
            InvalidOperation::ExecutionPayload(
                InvalidExecutionPayload::InvalidTimestamp {
                    provided: payload.timestamp,
                    expected: (state.genesis_time + (state.slot - context.genesis_slot)
                        * context.seconds_per_slot) as u64,
                },
            ),
        ),
{
}

} // verus!
