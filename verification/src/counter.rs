use vstd::prelude::*;

verus! {

/// A count that starts at zero and goes up by one at each increment. Tasks that share
/// it hold it behind a lock and call these methods while they hold the lock.
#[derive(Debug)]
pub struct Counter {
    value: i32,
}

impl Counter {
    /// The count as a number.
    pub closed spec fn count(&self) -> int {
        self.value as int
    }

    /// A counter at zero.
    pub fn new() -> (counter: Self)
        ensures
            counter.count() == 0,
    {
        Counter { value: 0 }
    }

    /// Adds one to the count.
    pub fn increment(&mut self)
        requires
            old(self).count() < i32::MAX,
        ensures
            final(self).count() == old(self).count() + 1,
    {
        self.value = self.value + 1;
    }

    /// The current count.
    pub fn get_value(&self) -> (value: i32)
        ensures
            value as int == self.count(),
    {
        self.value
    }
}

/// Increments add up: in a run of counter states where each comes from the one
/// before by one `increment`, the last count is the first plus the number of
/// increments. (When tasks share a counter, each increment runs alone under the
/// shared lock, so their increments form such a run.)
pub proof fn increments_add_up(states: Seq<Counter>)
    requires
        states.len() >= 1,
        forall|i: int| 0 <= i < states.len() - 1 ==> #[trigger] states[i + 1].count() == states[i].count() + 1,
    ensures
        states.last().count() == states[0].count() + (states.len() - 1),
    decreases states.len(),
{
    if states.len() > 1 {
        let shorter = states.drop_last();
        assert forall|i: int| 0 <= i < shorter.len() - 1 implies #[trigger] shorter[i + 1].count() == shorter[i].count() + 1 by {
            assert(states[i + 1].count() == states[i].count() + 1);
        }
        increments_add_up(shorter);
        let k = states.len() - 2;
        assert(states[k + 1].count() == states[k].count() + 1);
    }
}

} // verus!
