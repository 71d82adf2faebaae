//! Transactions and the transaction manager trait, and a simple implementation.

pub mod coordinator;
pub mod laws;
pub mod simple_transaction_manager;
pub mod status;
pub mod tm_error;
pub mod transaction;
pub mod transaction_id;
pub mod transaction_manager;

pub use coordinator::{Coordinator, Participant, FORMAT_ID};
pub use simple_transaction_manager::SimpleTransactionManager;
pub use status::Status;
pub use tm_error::{TmError, TmResult};
pub use transaction::Transaction;
pub use transaction_id::{TransactionId, MAX_BQUAL_SIZE, MAX_GTRID_SIZE};
pub use transaction_manager::TransactionManager;
pub use crate::xa_error::{XaError, XaResult};
pub use crate::xa_transaction_id::XaTransactionId;
