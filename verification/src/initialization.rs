//! How many threads the tool runs with.

use vstd::prelude::*;

verus! {

/// The threads that do the work on a machine with `cpu_cores` cores: all
/// cores but a tenth of them, the tenth rounded down.
pub open spec fn worker_threads_for(cpu_cores: nat) -> nat {
    (cpu_cores - cpu_cores / 10) as nat
}

/// Chooses the number of worker threads and the number of blocking
/// threads, which is twice that of the workers, for a machine with
/// `cpu_cores` cores.
pub fn set_threads_count(cpu_cores: usize) -> (counts: (usize, usize))
    requires
        2 * worker_threads_for(cpu_cores as nat) <= usize::MAX,
    ensures
        counts.0 == worker_threads_for(cpu_cores as nat),
        counts.1 == 2 * counts.0,
{
    let worker_threads = cpu_cores - cpu_cores / 10;
    let blocking_threads = worker_threads * 2;
    (worker_threads, blocking_threads)
}

} // verus!
