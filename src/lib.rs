//! Issuance and replay-safe verification of signed access receipts.

pub mod audit;
pub mod crypto;
pub mod encoding;
pub mod gateway;
pub mod ledger;
pub mod receipt;
pub mod store;

pub use audit::{QueryLogEntry, Statistics};
pub use gateway::{
    Filter, GatewayConfig, IssueError, QueryRequest, RequestError, RetrievalGateway, VerifyError,
};
pub use ledger::{ConsumeOutcome, NonceLedger};
pub use receipt::{AccessReceipt, UnsignedReceipt};
