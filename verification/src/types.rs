use vstd::prelude::*;

verus! {

/// Balance above which a validator with the full effective balance is partially withdrawable.
pub const MAX_EFFECTIVE_BALANCE: u64 = 32_000_000_000;

/// Largest number of validators the withdrawals sweep visits in one block.
pub const MAX_VALIDATORS_PER_WITHDRAWALS_SWEEP: usize = 16384;

/// First byte of a withdrawal credential that names an execution-layer address.
pub const ETH1_ADDRESS_WITHDRAWAL_PREFIX: u8 = 1;

/// Length in bytes of a withdrawal credential.
pub const WITHDRAWAL_CREDENTIALS_LEN: usize = 32;

/// Length in bytes of an execution-layer address.
pub const EXECUTION_ADDRESS_LEN: usize = 20;

/// Length in bytes of a hash or root.
pub const BYTES32_LEN: usize = 32;

#[derive(Clone, Debug, PartialEq, Eq)]
pub struct Validator {
    pub pubkey: Vec<u8>,
    pub withdrawal_credentials: Vec<u8>,
    pub effective_balance: u64,
    pub slashed: bool,
    pub activation_eligibility_epoch: u64,
    pub activation_epoch: u64,
    pub exit_epoch: u64,
    pub withdrawable_epoch: u64,
}

impl Validator {
    /// The credential has the fixed width of its type.
    pub open spec fn wf(&self) -> bool {
        self.withdrawal_credentials@.len() == WITHDRAWAL_CREDENTIALS_LEN
    }
}

#[derive(Clone, Debug, PartialEq, Eq)]
pub struct Withdrawal {
    pub index: usize,
    pub validator_index: usize,
    pub address: Vec<u8>,
    pub amount: u64,
}

/// A withdrawal as a mathematical value.
pub struct WithdrawalSpec {
    pub index: int,
    pub validator_index: int,
    pub address: Seq<u8>,
    pub amount: int,
}

impl View for Withdrawal {
    type V = WithdrawalSpec;

    open spec fn view(&self) -> WithdrawalSpec {
        WithdrawalSpec {
            index: self.index as int,
            validator_index: self.validator_index as int,
            address: self.address@,
            amount: self.amount as int,
        }
    }
}

/// The views of a sequence of withdrawals.
pub open spec fn withdrawals_view(ws: Seq<Withdrawal>) -> Seq<WithdrawalSpec> {
    ws.map_values(|w: Withdrawal| w@)
}

#[derive(Clone, Debug, PartialEq, Eq)]
pub struct Eth1Data {
    pub deposit_root: Vec<u8>,
    pub deposit_count: u64,
    pub block_hash: Vec<u8>,
}

#[derive(Clone, Debug, PartialEq, Eq)]
pub struct ExecutionPayload {
    pub parent_hash: Vec<u8>,
    pub fee_recipient: Vec<u8>,
    pub state_root: Vec<u8>,
    pub receipts_root: Vec<u8>,
    pub logs_bloom: Vec<u8>,
    pub prev_randao: Vec<u8>,
    pub block_number: u64,
    pub gas_limit: u64,
    pub gas_used: u64,
    pub timestamp: u64,
    pub extra_data: Vec<u8>,
    pub base_fee_per_gas: Vec<u8>,
    pub block_hash: Vec<u8>,
    pub transactions: Vec<Vec<u8>>,
    pub withdrawals: Vec<Withdrawal>,
}

#[derive(Clone, Debug, PartialEq, Eq)]
pub struct ExecutionPayloadHeader {
    pub parent_hash: Vec<u8>,
    pub fee_recipient: Vec<u8>,
    pub state_root: Vec<u8>,
    pub receipts_root: Vec<u8>,
    pub logs_bloom: Vec<u8>,
    pub prev_randao: Vec<u8>,
    pub block_number: u64,
    pub gas_limit: u64,
    pub gas_used: u64,
    pub timestamp: u64,
    pub extra_data: Vec<u8>,
    pub base_fee_per_gas: Vec<u8>,
    pub block_hash: Vec<u8>,
    pub transactions_root: Vec<u8>,
    pub withdrawals_root: Vec<u8>,
}

#[derive(Clone, Debug, PartialEq, Eq)]
pub struct BeaconState {
    pub genesis_time: u64,
    pub slot: u64,
    pub eth1_data: Eth1Data,
    pub eth1_deposit_index: u64,
    pub validators: Vec<Validator>,
    pub balances: Vec<u64>,
    pub randao_mixes: Vec<Vec<u8>>,
    pub latest_execution_payload_header: ExecutionPayloadHeader,
    pub next_withdrawal_index: usize,
    pub next_withdrawal_validator_index: usize,
}

impl BeaconState {
    /// Every validator's withdrawal credential has its fixed width.
    pub open spec fn validators_wf(&self) -> bool {
        forall|i: int| 0 <= i < self.validators@.len() ==> (#[trigger] self.validators@[i]).wf()
    }
}

#[derive(Clone, Debug, PartialEq, Eq)]
pub struct Context {
    pub genesis_slot: u64,
    pub slots_per_epoch: u64,
    pub seconds_per_slot: u64,
    pub max_deposits: usize,
    pub max_effective_balance: u64,
}

#[derive(Clone, Debug, PartialEq, Eq)]
pub enum InvalidDeposit {
    IncorrectCount { expected: usize, count: usize },
}

#[derive(Clone, Debug, PartialEq, Eq)]
pub enum InvalidExecutionPayload {
    InvalidParentHash { provided: Vec<u8>, expected: Vec<u8> },
    InvalidPrevRandao { provided: Vec<u8>, expected: Vec<u8> },
    InvalidTimestamp { provided: u64, expected: u64 },
}

#[derive(Clone, Debug, PartialEq, Eq)]
pub enum InvalidOperation {
    Deposit(InvalidDeposit),
    ExecutionPayload(InvalidExecutionPayload),
}

/// Why a state transition step was refused.
#[derive(Clone, Debug, PartialEq, Eq)]
pub enum Error {
    InvalidOperation(InvalidOperation),
    /// A hash tree root could not be computed.
    Merkleization,
    Overflow,
    Underflow,
    /// The execution engine refused the payload.
    ExecutionEngine,
    /// The payload's withdrawals are not the ones the sweep finds, or the sweep cannot be
    /// carried out on the state.
    InvalidWithdrawals,
    /// The state lacks what a step of block processing reads (a randao mix, or a deposit
    /// index no greater than the deposit count).
    InvalidState,
    /// The transition asked for is not defined yet.
    NotImplemented,
}

/// Wraps an invalid operation into a state transition error.
pub fn invalid_operation_error(op: InvalidOperation) -> (r: Error)
    ensures
        r == Error::InvalidOperation(op),
{
    Error::InvalidOperation(op)
}

} // verus!
