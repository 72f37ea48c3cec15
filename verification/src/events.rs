use vstd::prelude::*;

verus! {

/// One raw emitted-event record as the host supplies it: the emitting contract
/// address and the key and data payloads, all raw big-endian byte arrays.
pub struct EventRecord {
    pub from_address: Vec<u8>,
    pub keys: Vec<Vec<u8>>,
    pub data: Vec<Vec<u8>>,
}

/// A transaction execution record: the ordered events emitted during the
/// transaction.
pub struct Receipt {
    pub events: Vec<EventRecord>,
}

/// One transaction of the input batch, carrying its receipt. The host owes
/// every transaction a receipt; a missing one aborts the whole invocation.
pub struct Transaction {
    pub receipt: Option<Receipt>,
}

/// The input: an ordered batch of transactions with receipts, read-only to the
/// pipeline.
pub struct TransactionBatch {
    pub transactions: Vec<Transaction>,
}

/// The conditions that abort a whole invocation with no partial output.
#[derive(Clone, Copy, PartialEq, Eq, Structural, Debug)]
pub enum Error {
    /// A transaction of the batch lacks its receipt.
    MissingReceipt,
    /// A byte array of an event from the target address exceeds the scalar
    /// field width of 32 bytes.
    OversizedScalar,
}

/// The mathematical content of one output record: the two rendered address
/// strings as character sequences.
pub struct OutputRecordModel {
    pub merchant_address: Seq<char>,
    pub points_contract: Seq<char>,
}

/// One output record: the merchant entity's address and its points-tracking
/// contract, each as a `0x`-prefixed, zero-padded 64-hex-digit string.
pub struct OutputRecord {
    pub merchant_address: String,
    pub points_contract: String,
}

impl View for OutputRecord {
    type V = OutputRecordModel;

    open spec fn view(&self) -> OutputRecordModel {
        OutputRecordModel {
            merchant_address: self.merchant_address@,
            points_contract: self.points_contract@,
        }
    }
}

/// The output: the ordered, append-only records produced from one batch.
pub struct OutputBatch {
    pub merchant_contracts: Vec<OutputRecord>,
}

impl View for OutputBatch {
    type V = Seq<OutputRecordModel>;

    open spec fn view(&self) -> Seq<OutputRecordModel> {
        self.merchant_contracts@.map_values(|r: OutputRecord| r@)
    }
}

} // verus!
