//! Verified core of the rlex SPARQL toolkit.
use vstd::prelude::*;

pub mod text;
pub mod registry;
pub mod equivalence;
pub mod queries;
pub mod calls;
pub mod scan_guard;
pub mod numbers;
pub mod audit;
pub mod audit_queries;
pub mod diamond;
pub mod closure;
pub mod cycles;
pub mod config;
pub mod order;
pub mod index;
pub mod download;
pub mod catalog;
pub mod query;
pub mod load;
pub mod repos;
pub mod moreinfo;
pub mod bench;
pub mod serve;
pub mod warmup;
pub mod client;

verus! {

} // verus!
