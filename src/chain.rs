//! What the chain says of a broadcast: receipts turned into a status, and
//! the transfer log of a winning transaction decoded.

use vstd::prelude::*;

verus! {

/// The parts of a transaction receipt that reconciliation reads.
#[derive(Clone, Copy, Debug, PartialEq, Eq, Structural)]
pub struct ReceiptInfo {
    /// The block that included the transaction, once mined.
    pub block_number: Option<u64>,
    /// The receipt's status field: 1 for success, 0 for a revert.
    pub status: Option<u64>,
    pub gas_used: Option<u128>,
}

/// What is known of one hash on chain.
#[derive(Clone, Copy, Debug, PartialEq, Eq, Structural)]
pub struct TransactionChainStatus {
    pub exists_on_chain: bool,
    /// Known to the node but not yet in a block.
    pub pending: bool,
    /// Mined with the required number of confirmations.
    pub confirmed: bool,
    /// The receipt's status bit is 1.
    pub succeeded: bool,
    pub gas_used: Option<u128>,
    pub gas_price: Option<u128>,
}

/// A transaction mined in `block` has enough confirmations at `current`:
/// the inclusion block counts as the first one.
pub open spec fn confirmed_at(block: u64, required: u64, current: u64) -> bool {
    block + required - 1 <= current
}

pub fn is_confirmed(block: u64, required: u64, current: u64) -> (r: bool)
    ensures
        r == confirmed_at(block, required, current),
{
    (block as u128) + (required as u128) <= (current as u128) + 1
}

/// A block's timestamp as signed seconds since the epoch, when it fits.
pub fn block_timestamp_secs(timestamp: u64) -> (r: Option<i64>)
    ensures
        timestamp <= i64::MAX ==> r == Some(timestamp as i64),
        timestamp > i64::MAX ==> r is None,
{
    if timestamp <= i64::MAX as u64 {
        Some(timestamp as i64)
    } else {
        None
    }
}

/// Whether the transaction itself must be fetched to complete the status:
/// when there is no receipt, or the receipt names a block.
pub fn needs_transaction_lookup(receipt: &Option<ReceiptInfo>) -> (r: bool)
    ensures
        r == match receipt {
            Some(rc) => rc.block_number is Some,
            None => true,
        },
{
    match receipt {
        Some(rc) => rc.block_number.is_some(),
        None => true,
    }
}

pub open spec fn chain_status_spec(
    receipt: Option<ReceiptInfo>,
    tx_known: bool,
    tx_gas_price: Option<u128>,
    required: u64,
    current: u64,
) -> TransactionChainStatus {
    match receipt {
        Some(rc) => TransactionChainStatus {
            exists_on_chain: true,
            pending: false,
            confirmed: match rc.block_number {
                Some(b) => confirmed_at(b, required, current),
                None => false,
            },
            succeeded: rc.status == Some(1u64),
            gas_used: rc.gas_used,
            gas_price: match rc.block_number {
                Some(_) => if tx_known {
                    tx_gas_price
                } else {
                    None
                },
                None => None,
            },
        },
        None => TransactionChainStatus {
            exists_on_chain: tx_known,
            pending: tx_known,
            confirmed: false,
            succeeded: false,
            gas_used: None,
            gas_price: None,
        },
    }
}

/// Collates a hash's receipt (if any), whether the node knows the
/// transaction and at what price, into its chain status.
pub fn get_tx_on_chain_status(
    receipt: Option<ReceiptInfo>,
    tx_known: bool,
    tx_gas_price: Option<u128>,
    required_confirmations: u64,
    current_block: u64,
) -> (r: TransactionChainStatus)
    ensures
        r == chain_status_spec(
            receipt,
            tx_known,
            tx_gas_price,
            required_confirmations,
            current_block,
        ),
{
    match receipt {
        Some(rc) => {
            let confirmed = match rc.block_number {
                Some(b) => is_confirmed(b, required_confirmations, current_block),
                None => false,
            };
            let gas_price = match rc.block_number {
                Some(_) => if tx_known {
                    tx_gas_price
                } else {
                    None
                },
                None => None,
            };
            TransactionChainStatus {
                exists_on_chain: true,
                pending: false,
                confirmed,
                succeeded: match rc.status {
                    Some(st) => st == 1,
                    None => false,
                },
                gas_used: rc.gas_used,
                gas_price,
            }
        },
        None => TransactionChainStatus {
            exists_on_chain: tx_known,
            pending: tx_known,
            confirmed: false,
            succeeded: false,
            gas_used: None,
            gas_price: None,
        },
    }
}

} // verus!
