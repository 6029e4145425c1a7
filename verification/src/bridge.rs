//! The blocking bridge's scheduling decision.
//!
//! Every boundary call runs an asynchronous operation to completion before
//! returning. How the calling thread waits depends on whether it is already
//! driving the shared runtime — a callback that re-enters the boundary must
//! never block the runtime on itself, or a constrained-concurrency scheduler
//! deadlocks — and on whether the operation borrows caller state that cannot
//! move to an unscoped thread.

use vstd::prelude::*;

verus! {

/// How the calling thread waits for an asynchronous operation.
#[derive(Clone, Copy, PartialEq, Eq, Structural, Debug)]
pub enum BridgeStrategy {
    /// Block the calling thread on the runtime directly.
    BlockDirect,
    /// Hand the operation to an independent worker thread that enters the
    /// runtime on its own, and block on that worker's completion.
    SpawnWorker,
    /// Run the operation on a worker scoped to the current stack frame, so
    /// borrowed state stays valid, and block until the scope ends.
    ScopedWorker,
}

/// The waiting strategy for a detached operation, whose state can move
/// freely to another thread.
pub open spec fn spec_detached_strategy(inside_runtime: bool) -> BridgeStrategy {
    if inside_runtime {
        BridgeStrategy::SpawnWorker
    } else {
        BridgeStrategy::BlockDirect
    }
}

/// The waiting strategy for a borrowing operation, whose state must not
/// outlive the caller's stack frame.
pub open spec fn spec_borrowing_strategy(inside_runtime: bool) -> BridgeStrategy {
    if inside_runtime {
        BridgeStrategy::ScopedWorker
    } else {
        BridgeStrategy::BlockDirect
    }
}

/// The waiting strategy for a detached operation.
pub fn detached_strategy(inside_runtime: bool) -> (s: BridgeStrategy)
    ensures
        s == spec_detached_strategy(inside_runtime),
{
    if inside_runtime {
        BridgeStrategy::SpawnWorker
    } else {
        BridgeStrategy::BlockDirect
    }
}

/// The waiting strategy for a borrowing operation.
pub fn borrowing_strategy(inside_runtime: bool) -> (s: BridgeStrategy)
    ensures
        s == spec_borrowing_strategy(inside_runtime),
{
    if inside_runtime {
        BridgeStrategy::ScopedWorker
    } else {
        BridgeStrategy::BlockDirect
    }
}

/// A thread already driving the runtime never blocks on the runtime
/// directly, whichever shape of operation it issues: a reentrant boundary
/// call always waits through a worker instead, so it cannot deadlock the
/// scheduler on itself.
pub proof fn lemma_reentrant_call_never_blocks_runtime(inside_runtime: bool)
    ensures
        inside_runtime ==> spec_detached_strategy(inside_runtime) != BridgeStrategy::BlockDirect,
        inside_runtime ==> spec_borrowing_strategy(inside_runtime) != BridgeStrategy::BlockDirect,
{
}

} // verus!
