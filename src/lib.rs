//! Page-cache residency of a memory-mapped file: the page arithmetic, the
//! per-page status buffer and the decisions around the kernel calls.

pub mod mapped;
pub mod pages;
pub mod stat;
mod sys;

pub use mapped::{Error, MappedFile};
pub use stat::MincoreStat;
