//! Run-time type information: the row tables and the decoder of type
//! signatures.

pub mod codes;
pub mod decoder;
pub mod grammar;
pub mod list;
pub mod tables;

pub use codes::CB;
pub use list::SMXRTTIListTable;
