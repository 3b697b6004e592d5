//! The sections of an image: the raw view, the name table and the record
//! tables.

pub mod base;
pub mod code;
pub mod debug;
pub mod names;
pub mod symbols;
pub mod tables;
pub mod tags;

pub use base::BaseSection;
pub use code::{SMXCodeV1Section, SMXDataSection};
pub use debug::{SMXDebugFilesTable, SMXDebugInfoSection, SMXDebugLinesTable, SMXDebugMethods};
pub use names::SMXNameTable;
pub use tags::{SMXTagTable, Tag, TagFlags};
pub use symbols::{SMXDebugGlobals, SMXDebugLocals, SMXDebugSymbols};
pub use tables::{SMXCalledFunctionsTable, SMXNativeTable, SMXPublicTable, SMXPubvarTable};
