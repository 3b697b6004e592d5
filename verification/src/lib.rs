//! Decoding of compiled plugin images: the section and table framework, the
//! type-signature decoder and the lookup of debug symbols by address.

pub mod errors;
pub mod file;
pub mod headers;
pub mod reader;
pub mod records;
pub mod rtti;
pub mod sections;
pub mod text;
pub mod v1types;
