//! Extraction of merchant-entity creation events from batches of blockchain
//! transactions: receipts are scanned in order, events are filtered by the
//! emitting contract address, decoded against a fixed table of event variants,
//! and the one variant of interest is projected into fixed-width hexadecimal
//! output records.

pub mod hex;
pub mod felt;
pub mod events;
pub mod decode;
pub mod pipeline;
pub mod laws;
