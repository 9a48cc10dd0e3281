//! Per-step counters of the relay loop that feed its metrics.

use vstd::prelude::*;

verus! {

/// Counters kept across loop steps.
#[derive(Debug, Clone, Copy, PartialEq, Eq, Structural)]
pub struct StepStats {
    /// Steps in which at least one `Stimuli` message was applied.
    pub stimuli_applied_count: u64,
    /// LIF spikes of the most recent network step that succeeded.
    pub latest_spike_count: usize,
}

impl StepStats {
    /// Counters at start-up.
    pub fn new() -> (s: Self)
        ensures
            s.stimuli_applied_count == 0,
            s.latest_spike_count == 0,
    {
        StepStats { stimuli_applied_count: 0, latest_spike_count: 0 }
    }

    /// Records whether this step's messages applied stimuli.
    pub fn record_stimuli(&mut self, applied: bool)
        requires
            applied ==> old(self).stimuli_applied_count < u64::MAX,
        ensures
            final(self).stimuli_applied_count == old(self).stimuli_applied_count + if applied { 1int } else { 0int },
            final(self).latest_spike_count == old(self).latest_spike_count,
    {
        if applied {
            self.stimuli_applied_count = self.stimuli_applied_count + 1;
        }
    }

    /// Records the outcome of this step's network update: the number of LIF
    /// spikes when it succeeded, `None` when it failed (the last count stays).
    pub fn record_spikes(&mut self, spikes: Option<usize>)
        ensures
            final(self).latest_spike_count == match spikes {
                Some(n) => n,
                None => old(self).latest_spike_count,
            },
            final(self).stimuli_applied_count == old(self).stimuli_applied_count,
    {
        if let Some(n) = spikes {
            self.latest_spike_count = n;
        }
    }
}

} // verus!
