//! Allocation failures that record the layout which could not be obtained.
pub mod decimal;
pub mod error;
pub mod layout;

pub use error::{AllocError, ReserveErrorKind};
pub use layout::{Layout, LayoutError};
