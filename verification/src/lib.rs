//! Distributed transactions after the X/Open XA model: a transaction manager
//! drives registered resource managers through a two-phase commit.
//!
//! The crate is verified with Verus. Every executable function carries a
//! contract over the mathematical models defined next to it.

pub mod error_code;
pub mod flags;
pub mod le;
pub mod return_code;
pub mod rm;
pub mod rm_error;
pub mod tm;
pub mod xa_error;
pub mod xa_transaction_id;

pub use error_code::ErrorCode;
pub use flags::Flags;
pub use return_code::{ReturnCode, RmRc};
pub use rm_error::{Error, RmError, RmResult};
pub use xa_error::{XaError, XaResult};
pub use xa_transaction_id::{XaTransactionId, Xid};
