//! Interface of a resource manager, as required by a transaction manager.
//!
//! Implementors can choose between implementing `ResourceManager` directly, or implementing
//! `CResourceManager` (which is closer to the XA C API) and wrap it into `CRmWrapper` to get
//! an implementation of the more idiomatic `ResourceManager` trait.

pub mod c_resource_manager;
pub mod c_rm_wrapper;
pub mod resource_manager;

pub use crate::error_code::ErrorCode;
pub use crate::flags::Flags;
pub use crate::return_code::{ReturnCode, RmRc};
pub use crate::rm_error::{Error, RmError, RmResult};
pub use c_resource_manager::{CExchange, CHistory, CResourceManager};
pub use c_rm_wrapper::CRmWrapper;
pub use resource_manager::{perform, Exchange, History, Operation, ResourceManager, Scan};
