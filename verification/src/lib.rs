//! Capella block processing: the withdrawals sweep, the execution-payload checks, and
//! the order in which a block's parts are applied to the beacon state.

pub mod types;
pub mod helpers;
pub mod ssz;
pub mod withdrawals;
pub mod execution_payload;
pub mod operations;
