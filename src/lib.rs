//! The exact parts of an accumulator calculator: the error kinds and their
//! messages, the tags of the recorded operations, and an overflow-checked
//! factorial.

pub mod error;
pub mod factorial;
pub mod operation;

pub use error::CalcError;
pub use factorial::factorial;
pub use operation::Operation;
