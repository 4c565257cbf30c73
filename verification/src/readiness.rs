use vstd::prelude::*;

verus! {

/// The readiness state: not ready from startup, flipped ready exactly once
/// by the startup-complete signal, and never reset while the process runs.
/// The view is the boolean the readiness probe reads.
pub struct ReadinessFlag {
    ready: bool,
}

impl View for ReadinessFlag {
    type V = bool;

    closed spec fn view(&self) -> bool {
        self.ready
    }
}

impl ReadinessFlag {
    /// A fresh flag: the process is not ready before startup completes.
    pub fn new() -> (r: ReadinessFlag)
        ensures
            !r@,
    {
        ReadinessFlag { ready: false }
    }

    /// The startup-complete signal: after it the flag reads ready, whatever
    /// it read before.
    pub fn mark_ready(&mut self)
        ensures
            final(self)@,
    {
        self.ready = true;
    }

    /// What the readiness probe reads.
    pub fn is_ready(&self) -> (r: bool)
        ensures
            r == self@,
    {
        self.ready
    }
}

/// A step the flag can take while the process runs: a read leaves it as it
/// was, the startup-complete signal sets it ready. No step unsets it.
pub open spec fn flag_step(pre: bool, post: bool) -> bool {
    post == pre || post
}

/// Readiness is monotonic: along any run of steps, a flag once ready is
/// ready at every later observation.
pub proof fn lemma_ready_monotonic(trace: Seq<bool>, i: int, j: int)
    requires
        0 <= i <= j < trace.len(),
        forall|k: int| i <= k < j ==> #[trigger] flag_step(trace[k], trace[k + 1]),
        trace[i],
    ensures
        trace[j],
    decreases j - i,
{
    if i < j {
        assert(flag_step(trace[i], trace[i + 1]));
        lemma_ready_monotonic(trace, i + 1, j);
    }
}

/// Before the startup-complete signal every observation is unready: a run
/// of read-only steps from a fresh flag never reads ready.
pub proof fn lemma_not_ready_before_signal(trace: Seq<bool>, j: int)
    requires
        0 <= j < trace.len(),
        !trace[0],
        forall|k: int| 0 <= k < j ==> #[trigger] trace[k + 1] == trace[k],
    ensures
        !trace[j],
    decreases j,
{
    if j > 0 {
        lemma_not_ready_before_signal(trace, j - 1);
        assert(trace[(j - 1) + 1] == trace[j - 1]);
    }
}

} // verus!
