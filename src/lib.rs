//! A fixed-size worker pool: the bookkeeping and shutdown protocol of a set of
//! long-lived workers that compete for jobs on one shared dispatch channel.
//!
//! The types here are generic over the thread handle and the channel's sending
//! half, so the protocol is stated and proved independently of how threads are
//! started and joined.

use vstd::prelude::*;

pub mod error;
pub mod pool;
pub mod worker;

pub use error::PoolCreationError;
pub use pool::{PoolCore, PoolPhase};
pub use worker::{Worker, WorkerStep, next_step};

verus! {

} // verus!
