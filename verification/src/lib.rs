//! A micro-benchmark core that maps a small fixed set of language names to
//! their `Lang` tag in three interchangeable ways: an explicit equality
//! chain, a lazily initialized process-wide table, and a caller-built local
//! table. All three resolvers are pinned to the single spec function
//! `spec_lookup`, so their agreement on every key is part of their contracts.

pub mod lang;
pub mod scan;
pub mod shared;
pub mod table;
pub mod text;
pub mod workload;
