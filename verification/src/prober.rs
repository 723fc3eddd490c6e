//! Readiness prober: decides, attempt by attempt, whether the supervised
//! server has become network-ready or the probe budget is exhausted.
//!
//! The application performs one TCP connection attempt per step and reports
//! only whether the connection succeeded; the prober owns the counting and
//! the verdict.
use vstd::prelude::*;

verus! {

/// Verdict after one recorded probe attempt.
#[derive(PartialEq, Eq, Structural, Debug, Clone, Copy)]
pub enum ProbeVerdict {
    /// The server accepted a connection: it is ready.
    Ready,
    /// Not ready yet and budget remains: sleep, then probe again.
    Retry,
    /// The whole attempt budget was spent without a successful connection.
    TimedOut,
}

/// Counts connection attempts against a fixed budget.
pub struct Prober {
    pub attempts_used: u32,
    pub max_attempts: u32,
}

/// True when some attempt among the first `max` of the trace connects:
/// the server was accepting connections before the deadline elapsed.
pub open spec fn ready_within(outcomes: Seq<bool>, max: nat) -> bool {
    exists|i: int| 0 <= i < max && i < outcomes.len() && outcomes[i]
}

impl Prober {
    /// The count of spent attempts never exceeds the budget.
    pub open spec fn wf(&self) -> bool {
        self.attempts_used <= self.max_attempts
    }

    pub fn new(max_attempts: u32) -> (p: Prober)
        ensures
            p.wf(),
            p.max_attempts == max_attempts,
            p.attempts_used == 0,
    {
        Prober { attempts_used: 0, max_attempts }
    }

    /// Record the outcome of one connection attempt. A successful connect is
    /// the entire readiness signal; a failed one is retried until the budget
    /// is spent, and exhausting it is a normal outcome, not an error.
    pub fn observe(&mut self, connected: bool) -> (v: ProbeVerdict)
        requires
            old(self).wf(),
            old(self).attempts_used < old(self).max_attempts,
        ensures
            final(self).wf(),
            final(self).max_attempts == old(self).max_attempts,
            final(self).attempts_used == old(self).attempts_used + 1,
            v == ProbeVerdict::Ready <==> connected,
            v == ProbeVerdict::TimedOut <==> (!connected && old(self).attempts_used + 1
                == old(self).max_attempts),
            v == ProbeVerdict::Retry <==> (!connected && old(self).attempts_used + 1
                < old(self).max_attempts),
    {
        self.attempts_used = self.attempts_used + 1;
        if connected {
            ProbeVerdict::Ready
        } else if self.attempts_used < self.max_attempts {
            ProbeVerdict::Retry
        } else {
            ProbeVerdict::TimedOut
        }
    }
}

/// Run the probe schedule against a recorded trace of connection outcomes:
/// attempt `i` succeeds exactly when `outcomes[i]` is true, and attempts
/// past the end of the trace fail. Returns true if and only if a connection
/// was accepted within the attempt budget; timing out returns false and is
/// never an error.
pub fn wait_ready_trace(outcomes: &Vec<bool>, max_attempts: u32) -> (r: bool)
    ensures
        r == ready_within(outcomes@, max_attempts as nat),
{
    let mut prober = Prober::new(max_attempts);
    let mut i: u32 = 0;
    while i < max_attempts
        invariant
            i <= max_attempts,
            prober.wf(),
            prober.max_attempts == max_attempts,
            prober.attempts_used == i,
            forall|j: int| 0 <= j < i ==> !(j < outcomes@.len() && outcomes@[j]),
        decreases max_attempts - i,
    {
        let connected = if (i as usize) < outcomes.len() {
            outcomes[i as usize]
        } else {
            false
        };
        let v = prober.observe(connected);
        if v == ProbeVerdict::Ready {
            assert(0 <= i < max_attempts && i < outcomes@.len() && outcomes@[i as int]);
            return true;
        }
        i = i + 1;
    }
    false
}

} // verus!
