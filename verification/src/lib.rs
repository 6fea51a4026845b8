//! Introspection of the process-wide memory allocator, for memory profiling: how large a heap block
//! is, what the allocator reports about its heap, and which pointers it was asked about in vain.
//!
//! Nothing here touches the heap. Each operation that needs to know something about the process is
//! a value that asks for one thing at a time and is resumed with the answer.

pub mod address;
pub mod config;
pub mod foreign;
pub mod foreign_laws;
pub mod hex;
pub mod measure;
pub mod measure_laws;
pub mod region;
pub mod reports;
pub mod reports_laws;
pub mod text_laws;
pub mod tracking;

pub use crate::config::{is_tracking_unmeasured, Build, Platform};
pub use crate::foreign::{take_foreign_pointers, ForeignPointers};
pub use crate::measure::{usable_size, Measurement};
pub use crate::reports::{heap_reports, HeapReport, Reports};
pub use crate::tracking::{disable_unmeasured_tracking, dump_unmeasured, FollowUp, Measured};
