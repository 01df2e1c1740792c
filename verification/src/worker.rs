//! The queue of jobs for a monitor's bus.
//!
//! DDC/CI over i2c is inherently a one-transaction-at-a-time bus. Every job
//! goes through this one queue, and whoever runs them takes one at a time, so
//! at most one call ever touches the bus.

use std::collections::VecDeque;

use vstd::prelude::*;

use crate::commands::Job;

verus! {

#[derive(Debug)]
pub struct Worker {
    pub queue: VecDeque<Job>,
}

impl Worker {
    /// A queue with nothing in it.
    pub fn new() -> (r: Self)
        ensures
            r.queue@ == Seq::<Job>::empty(),
    {
        Worker { queue: VecDeque::new() }
    }

    /// Queues `job` to run after every job already queued ahead of it.
    pub fn submit(&mut self, job: Job)
        ensures
            final(self).queue@ == old(self).queue@.push(job),
    {
        self.queue.push_back(job);
    }

    /// Takes the job that has waited longest.
    pub fn take(&mut self) -> (r: Option<Job>)
        ensures
            old(self).queue@.len() == 0 ==> r is None && final(self).queue@ == old(self).queue@,
            old(self).queue@.len() > 0 ==> r == Some(old(self).queue@[0]) && final(self).queue@
                == old(self).queue@.skip(1),
    {
        let r = self.queue.pop_front();
        assert(old(self).queue@.len() > 0 ==> self.queue@ =~= old(self).queue@.skip(1));
        r
    }
}

/// The jobs left after taking `n` of those queued, each from the front.
pub open spec fn after_taking(queue: Seq<Job>, n: nat) -> Seq<Job>
    decreases n,
{
    if n == 0 {
        queue
    } else {
        after_taking(queue, (n - 1) as nat).skip(1)
    }
}

/// Jobs run in the order they were queued: after `n` of them have been taken,
/// the next one is the `n`-th queued, also where more were queued behind it
/// meanwhile.
pub proof fn law_jobs_run_in_order(queue: Seq<Job>, later: Seq<Job>, n: nat)
    requires
        n < queue.len(),
    ensures
        after_taking(queue, n).len() == queue.len() - n,
        after_taking(queue, n)[0] == queue[n as int],
        (after_taking(queue, n) + later)[0] == queue[n as int],
{
    lemma_after_taking(queue, n);
}

proof fn lemma_after_taking(queue: Seq<Job>, n: nat)
    requires
        n <= queue.len(),
    ensures
        after_taking(queue, n) == queue.skip(n as int),
    decreases n,
{
    if n == 0 {
        assert(queue.skip(0) =~= queue);
    } else {
        lemma_after_taking(queue, (n - 1) as nat);
        assert(queue.skip(n - 1).skip(1) =~= queue.skip(n as int));
    }
}

} // verus!
