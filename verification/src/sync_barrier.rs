use std::sync::Arc;
use tokio::sync::Barrier;
use vstd::prelude::*;

verus! {

#[verifier::external_type_specification]
#[verifier::external_body]
pub struct ExBarrier(Barrier);

/// The number of tasks that a barrier waits for before it lets them all go on.
pub uninterp spec fn barrier_parties(barrier: Barrier) -> nat;

/// `tokio::sync::Barrier::new(n)`: a barrier for `n` tasks, where `n == 0` is taken as
/// one (every wait returns at once), as the constructor's source does.
#[verifier::external_body]
fn new_barrier(n: usize) -> (barrier: Barrier)
    ensures
        barrier_parties(barrier) == (if n == 0 { 1 } else { n as nat }),
{
    Barrier::new(n)
}

/// A barrier shared by tasks that must all arrive before any of them goes on.
pub struct SyncBarrier {
    pub barrier: Arc<Barrier>,
}

impl SyncBarrier {
    /// A barrier for `count` tasks (a count of zero acts as one).
    pub fn new(count: usize) -> (res: Self)
        ensures
            barrier_parties(*res.barrier) == (if count == 0 { 1 } else { count as nat }),
    {
        SyncBarrier { barrier: Arc::new(new_barrier(count)) }
    }
}

} // verus!
