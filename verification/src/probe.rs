//! The readiness probe: a budgeted polling loop against the engine's
//! health endpoint. The probe decides; the host performs the request and
//! the fixed sleep between attempts.

use vstd::prelude::*;

verus! {

/// Milliseconds between two polls of the health endpoint.
pub const PROBE_INTERVAL_MS: u64 = 500;

/// What the probe concluded from one poll.
#[derive(Clone, Copy, Debug, PartialEq, Eq, Structural)]
pub enum ProbeVerdict {
    /// The endpoint answered: the engine is ready.
    Ready,
    /// No answer yet; budget remains: sleep one interval and poll again.
    Retry,
    /// No answer and the budget is exhausted: the engine never came up.
    Exhausted,
}

/// Whether a probe with `remaining` attempts reports ready when the polls
/// would answer as `results` (one entry per poll, in order).
pub open spec fn probe_outcome(results: Seq<bool>, remaining: nat) -> bool
    decreases remaining,
{
    if remaining == 0 || results.len() == 0 {
        false
    } else if results[0] {
        true
    } else {
        probe_outcome(results.drop_first(), (remaining - 1) as nat)
    }
}

/// The probe reports ready exactly when some poll within the budget
/// answers.
pub proof fn lemma_probe_outcome(results: Seq<bool>, remaining: nat)
    ensures
        probe_outcome(results, remaining) <==> exists|i: int|
            0 <= i < remaining && i < results.len() && results[i],
    decreases remaining,
{
    if remaining == 0 || results.len() == 0 {
    } else if results[0] {
        assert(0 < remaining && 0 < results.len() && results[0]);
    } else {
        lemma_probe_outcome(results.drop_first(), (remaining - 1) as nat);
        if probe_outcome(results, remaining) {
            let i = choose|i: int|
                0 <= i < remaining - 1 && i < results.drop_first().len()
                    && results.drop_first()[i];
            assert(results[i + 1]);
        }
        if exists|i: int| 0 <= i < remaining && i < results.len() && results[i] {
            let i = choose|i: int| 0 <= i < remaining && i < results.len() && results[i];
            assert(i >= 1);
            assert(results.drop_first()[i - 1]);
        }
    }
}

/// One readiness probe run with a bounded retry budget, polled twice a
/// second.
pub struct ReadinessProbe {
    remaining: u32,
}

impl ReadinessProbe {
    /// How many polls may still be made.
    pub closed spec fn remaining(self) -> u32 {
        self.remaining
    }

    /// A probe that polls the health endpoint every half second for at
    /// most `budget_seconds` seconds.
    pub fn new(budget_seconds: u32) -> (r: Self)
        requires
            budget_seconds <= 0x7fff_ffff,
        ensures
            r.remaining() == 2 * budget_seconds,
    {
        ReadinessProbe { remaining: 2 * budget_seconds }
    }

    /// Consumes one poll answer: an answered poll means ready; an
    /// unanswered one spends one attempt and asks for a retry while any
    /// remain.
    pub fn step(&mut self, answered: bool) -> (r: ProbeVerdict)
        ensures
            r == ProbeVerdict::Ready <==> answered && old(self).remaining() > 0,
            r == ProbeVerdict::Exhausted <==> old(self).remaining() == 0 || (!answered && old(
                self,
            ).remaining() == 1),
            r == ProbeVerdict::Retry <==> !answered && old(self).remaining() > 1,
            final(self).remaining() == if answered && old(self).remaining() > 0 {
                old(self).remaining()
            } else if old(self).remaining() > 0 {
                (old(self).remaining() - 1) as u32
            } else {
                0u32
            },
    {
        if self.remaining == 0 {
            ProbeVerdict::Exhausted
        } else if answered {
            ProbeVerdict::Ready
        } else {
            self.remaining = self.remaining - 1;
            if self.remaining == 0 {
                ProbeVerdict::Exhausted
            } else {
                ProbeVerdict::Retry
            }
        }
    }
}

} // verus!
