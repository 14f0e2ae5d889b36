//! Transactions as they are written to the transaction table: which value
//! goes into which column, and which transactions can be written at all.

use vstd::prelude::*;
use crate::common::H256;
use crate::uint::U256;

verus! {

/// A 512-bit hash, as 64 bytes.
#[derive(Debug, Clone, Copy, PartialEq, Eq, Hash)]
pub struct H512 {
    pub bytes: [u8; 64],
}

/// What is known of a transaction once it is included in a block.
#[derive(Debug, Clone, Copy, PartialEq, Eq)]
pub struct TxnReceiptInfo {
    /// The gas that the transaction used.
    pub gas_used: U256,
    /// The gas used in the block up to and including the transaction.
    pub cumulative_gas_used: U256,
    /// The price that was paid for each unit of gas.
    pub effective_gas_price: Option<U256>,
}

/// A transaction as observed on a chain.
#[derive(Debug, Clone, PartialEq, Eq)]
pub struct TxnInfo {
    pub hash: H512,
    pub gas_limit: U256,
    pub max_priority_fee_per_gas: Option<U256>,
    pub max_fee_per_gas: Option<U256>,
    pub gas_price: Option<U256>,
    pub nonce: u64,
    pub sender: H256,
    pub recipient: Option<H256>,
    /// Absent until the transaction is included in a block.
    pub receipt: Option<TxnReceiptInfo>,
    pub raw_input_data: Option<Vec<u8>>,
}

/// A transaction together with the id of the block that holds it.
#[derive(Debug, Clone, PartialEq, Eq)]
pub struct StorableTxn {
    pub info: TxnInfo,
    pub block_id: i64,
}

/// One row of the transaction table, before its values are encoded for the
/// database.
#[derive(Debug, Clone, PartialEq, Eq)]
pub struct TxnRow {
    pub block_id: i64,
    pub gas_limit: U256,
    pub max_priority_fee_per_gas: Option<U256>,
    pub hash: H512,
    pub gas_used: U256,
    pub gas_price: Option<U256>,
    pub effective_gas_price: Option<U256>,
    pub nonce: i64,
    pub sender: H256,
    pub recipient: Option<H256>,
    pub max_fee_per_gas: Option<U256>,
    pub cumulative_gas_used: U256,
    pub raw_input_data: Option<Vec<u8>>,
}

/// What a `TxnRow` is, with the input data as a sequence.
pub struct TxnRowView {
    pub block_id: i64,
    pub gas_limit: U256,
    pub max_priority_fee_per_gas: Option<U256>,
    pub hash: H512,
    pub gas_used: U256,
    pub gas_price: Option<U256>,
    pub effective_gas_price: Option<U256>,
    pub nonce: i64,
    pub sender: H256,
    pub recipient: Option<H256>,
    pub max_fee_per_gas: Option<U256>,
    pub cumulative_gas_used: U256,
    pub raw_input_data: Option<Seq<u8>>,
}

impl View for TxnRow {
    type V = TxnRowView;

    open spec fn view(&self) -> TxnRowView {
        TxnRowView {
            block_id: self.block_id,
            gas_limit: self.gas_limit,
            max_priority_fee_per_gas: self.max_priority_fee_per_gas,
            hash: self.hash,
            gas_used: self.gas_used,
            gas_price: self.gas_price,
            effective_gas_price: self.effective_gas_price,
            nonce: self.nonce,
            sender: self.sender,
            recipient: self.recipient,
            max_fee_per_gas: self.max_fee_per_gas,
            cumulative_gas_used: self.cumulative_gas_used,
            raw_input_data: match self.raw_input_data {
                Some(data) => Some(data@),
                None => None,
            },
        }
    }
}

/// Why a batch of transactions cannot be written.
#[derive(Debug, Clone, Copy, PartialEq, Eq)]
pub enum StoreTxnError {
    /// A transaction of the batch has no receipt yet.
    NotYetIncluded,
}

/// The nonce as the table's signed 64-bit column holds it: the same 64 bits.
pub open spec fn nonce_column(nonce: u64) -> int {
    if nonce <= i64::MAX {
        nonce as int
    } else {
        nonce - 0x1_0000_0000_0000_0000
    }
}

/// The row of a transaction that has the receipt `receipt`.
pub open spec fn row_of(txn: StorableTxn, receipt: TxnReceiptInfo) -> TxnRowView {
    TxnRowView {
        block_id: txn.block_id,
        gas_limit: txn.info.gas_limit,
        max_priority_fee_per_gas: txn.info.max_priority_fee_per_gas,
        hash: txn.info.hash,
        gas_used: receipt.gas_used,
        gas_price: txn.info.gas_price,
        effective_gas_price: receipt.effective_gas_price,
        nonce: nonce_column(txn.info.nonce) as i64,
        sender: txn.info.sender,
        recipient: txn.info.recipient,
        max_fee_per_gas: txn.info.max_fee_per_gas,
        cumulative_gas_used: receipt.cumulative_gas_used,
        raw_input_data: match txn.info.raw_input_data {
            Some(data) => Some(data@),
            None => None,
        },
    }
}

/// A copy of some bytes.
fn copy_bytes(bytes: &Vec<u8>) -> (copy: Vec<u8>)
    ensures
        copy@ == bytes@,
{
    let mut copy: Vec<u8> = Vec::new();
    let mut i: usize = 0;
    while i < bytes.len()
        invariant
            i <= bytes@.len(),
            copy@ == bytes@.take(i as int),
        decreases bytes.len() - i,
    {
        copy.push(bytes[i]);
        i += 1;
        assert(copy@ =~= bytes@.take(i as int));
    }
    assert(bytes@.take(i as int) =~= bytes@);
    copy
}

/// The nonce with the same bits as a signed number.
fn nonce_to_column(nonce: u64) -> (column: i64)
    ensures
        column == nonce_column(nonce),
{
    if nonce <= 0x7fff_ffff_ffff_ffff {
        nonce as i64
    } else {
        let low: u64 = nonce - 0x8000_0000_0000_0000;
        (low as i64) + i64::MIN
    }
}

/// The rows of a batch of transactions, one for each transaction, in order.
/// A batch is written whole or not at all: one transaction without a
/// receipt and there are no rows.
pub fn txn_rows(txns: &[StorableTxn]) -> (rows: Result<Vec<TxnRow>, StoreTxnError>)
    ensures
        rows is Ok <==> forall|i: int| 0 <= i < txns@.len() ==> (#[trigger] txns@[i]).info.receipt
            is Some,
        rows matches Ok(list) ==> {
            &&& list@.len() == txns@.len()
            &&& forall|i: int|
                0 <= i < txns@.len() ==> (#[trigger] list@[i])@ == row_of(
                    txns@[i],
                    txns@[i].info.receipt->0,
                )
        },
        rows matches Err(e) ==> e == StoreTxnError::NotYetIncluded,
{
    let mut list: Vec<TxnRow> = Vec::new();
    let mut i: usize = 0;
    while i < txns.len()
        invariant
            i <= txns@.len(),
            list@.len() == i,
            forall|j: int| 0 <= j < i ==> (#[trigger] txns@[j]).info.receipt is Some,
            forall|j: int|
                0 <= j < i ==> (#[trigger] list@[j])@ == row_of(txns@[j], txns@[j].info.receipt->0),
        decreases txns.len() - i,
    {
        let txn = &txns[i];
        let receipt = match txn.info.receipt {
            Some(receipt) => receipt,
            None => {
                return Err(StoreTxnError::NotYetIncluded);
            },
        };
        let row = TxnRow {
            block_id: txn.block_id,
            gas_limit: txn.info.gas_limit,
            max_priority_fee_per_gas: txn.info.max_priority_fee_per_gas,
            hash: txn.info.hash,
            gas_used: receipt.gas_used,
            gas_price: txn.info.gas_price,
            effective_gas_price: receipt.effective_gas_price,
            nonce: nonce_to_column(txn.info.nonce),
            sender: txn.info.sender,
            recipient: txn.info.recipient,
            max_fee_per_gas: txn.info.max_fee_per_gas,
            cumulative_gas_used: receipt.cumulative_gas_used,
            raw_input_data: match &txn.info.raw_input_data {
                Some(data) => Some(copy_bytes(data)),
                None => None,
            },
        };
        list.push(row);
        i += 1;
    }
    Ok(list)
}

} // verus!
