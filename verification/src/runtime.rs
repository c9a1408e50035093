//! How the node's tasks are executed: on the calling thread alone, or on a
//! pool of worker threads.

use vstd::prelude::*;

verus! {

/// The configured number of threads.
#[derive(Clone, Copy, Debug, PartialEq, Eq, Structural)]
pub enum Threads {
    /// Exactly this many threads.
    N(u16),
    /// As many threads as the machine runs in parallel.
    Auto,
}

/// The execution context that drives the node's tasks.
#[derive(Clone, Copy, Debug, PartialEq, Eq, Structural)]
pub enum Runtime {
    /// One thread of control: all tasks are interleaved on the caller's
    /// thread.
    CurrentThread,
    /// A pool of worker threads. Without a number of workers the pool is
    /// sized to the parallelism that the platform reports.
    ThreadPool { workers: Option<u16> },
}

impl Threads {
    /// A thread count is usable when it is automatic or positive.
    pub open spec fn is_valid(&self) -> bool {
        *self matches Threads::N(n) ==> n >= 1
    }
}

/// The execution context for a thread count: one thread runs everything on
/// the current thread, any other count sizes a pool, and the automatic
/// setting leaves the size of the pool to the platform.
pub open spec fn runtime_for(threads: Threads) -> Runtime {
    match threads {
        Threads::N(n) => if n == 1 {
            Runtime::CurrentThread
        } else {
            Runtime::ThreadPool { workers: Some(n) }
        },
        Threads::Auto => Runtime::ThreadPool { workers: None },
    }
}

/// Chooses the execution context for the configured thread count.
pub fn select_runtime(threads: Threads) -> (runtime: Runtime)
    requires
        threads.is_valid(),
    ensures
        runtime == runtime_for(threads),
{
    match threads {
        Threads::N(n) => {
            if n == 1 {
                Runtime::CurrentThread
            } else {
                Runtime::ThreadPool { workers: Some(n) }
            }
        },
        Threads::Auto => Runtime::ThreadPool { workers: None },
    }
}

} // verus!
