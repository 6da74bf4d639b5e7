//! Startup backend selection: probe the sidecar's health endpoint with a
//! bounded retry loop, then commit once to the remote backend or to the
//! in-memory fallback, for the process lifetime.
//!
//! The selector decides; the surrounding process performs the probes and
//! the connection attempt and reports each outcome back, together with
//! how much of the probe budget has elapsed.

use vstd::prelude::*;

verus! {

/// Milliseconds between two health probes.
pub const PROBE_INTERVAL_MS: u64 = 500;

/// Total probe budget in milliseconds: once this deadline has elapsed
/// without a successful probe, the selector falls back to the in-memory
/// backend.
pub const PROBE_DEADLINE_MS: u64 = 15000;

/// Timeout for one probe attempt, so that a single hung attempt cannot
/// consume the whole budget. In the worst case probing may still exceed
/// the deadline by up to one attempt's timeout.
pub const PROBE_ATTEMPT_TIMEOUT_MS: u64 = 2000;

/// The concrete data-storage choice satisfying the state contract.
#[derive(Clone, Copy, PartialEq, Eq, Structural, Debug)]
pub enum Backend {
    /// The sidecar-managed remote store.
    Remote,
    /// The in-process fallback map.
    InMemory,
}

/// Where the selection stands: still probing sidecar health, attempting
/// the RPC connection after a successful probe, or committed for good.
#[derive(Clone, Copy, PartialEq, Eq, Structural, Debug)]
pub enum SelectorPhase {
    Probing,
    Connecting,
    Committed(Backend),
}

/// How a probe outcome advances the selection: a successful probe moves
/// on to the connection attempt; a failed probe at or past the deadline
/// commits to the in-memory fallback; a failed probe within the budget
/// keeps probing.
pub open spec fn probe_step(ok: bool, elapsed_ms: u64) -> SelectorPhase {
    if ok {
        SelectorPhase::Connecting
    } else if elapsed_ms >= PROBE_DEADLINE_MS {
        SelectorPhase::Committed(Backend::InMemory)
    } else {
        SelectorPhase::Probing
    }
}

/// How the connection outcome commits the selection: success commits to
/// the remote backend, failure to the in-memory fallback.
pub open spec fn connect_step(ok: bool) -> SelectorPhase {
    if ok {
        SelectorPhase::Committed(Backend::Remote)
    } else {
        SelectorPhase::Committed(Backend::InMemory)
    }
}

/// The backend-selection state machine. It transitions to `Committed`
/// exactly once and never leaves it: there is no runtime re-probing and
/// no failover mid-flight.
pub struct Selector {
    pub phase: SelectorPhase,
}

impl Selector {
    /// Starts the selection. When no environment signal indicates that a
    /// sidecar is expected, probing is skipped entirely and the selection
    /// falls straight to the in-memory fallback, avoiding the wait cost
    /// in purely local runs.
    pub fn new(sidecar_expected: bool) -> (s: Self)
        ensures
            sidecar_expected ==> s.phase == SelectorPhase::Probing,
            !sidecar_expected ==> s.phase == SelectorPhase::Committed(Backend::InMemory),
    {
        if sidecar_expected {
            Selector { phase: SelectorPhase::Probing }
        } else {
            Selector { phase: SelectorPhase::Committed(Backend::InMemory) }
        }
    }

    /// Records the outcome of one health probe, together with the time
    /// elapsed since probing began.
    pub fn on_probe_result(&mut self, ok: bool, elapsed_ms: u64)
        requires
            old(self).phase == SelectorPhase::Probing,
        ensures
            final(self).phase == probe_step(ok, elapsed_ms),
    {
        if ok {
            self.phase = SelectorPhase::Connecting;
        } else if elapsed_ms >= PROBE_DEADLINE_MS {
            self.phase = SelectorPhase::Committed(Backend::InMemory);
        }
    }

    /// Records the outcome of the RPC connection attempt that follows a
    /// successful health probe.
    pub fn on_connect_result(&mut self, ok: bool)
        requires
            old(self).phase == SelectorPhase::Connecting,
        ensures
            final(self).phase == connect_step(ok),
    {
        if ok {
            self.phase = SelectorPhase::Committed(Backend::Remote);
        } else {
            self.phase = SelectorPhase::Committed(Backend::InMemory);
        }
    }

    /// The committed backend, or `None` while the selection is still in
    /// progress.
    pub fn committed_backend(&self) -> (b: Option<Backend>)
        ensures
            (match b {
                Some(backend) => self.phase == SelectorPhase::Committed(backend),
                None => self.phase == SelectorPhase::Probing || self.phase
                    == SelectorPhase::Connecting,
            }),
    {
        match self.phase {
            SelectorPhase::Committed(backend) => Some(backend),
            _ => None,
        }
    }
}

/// A whole probing run in which every probe fails: the phase after
/// feeding the selector each failed probe in turn, with its elapsed
/// time. Probing stops as soon as the selection leaves `Probing`.
pub open spec fn run_failed_probes(phase: SelectorPhase, times: Seq<u64>) -> SelectorPhase
    decreases times.len(),
{
    if times.len() == 0 {
        phase
    } else if phase != SelectorPhase::Probing {
        phase
    } else {
        run_failed_probes(probe_step(false, times[0]), times.drop_first())
    }
}

/// Law: if the sidecar's health endpoint never reports success and the
/// probe deadline elapses, the selector commits to the in-memory
/// fallback. The fallback's operations always succeed (see the in-memory
/// backend's `reliable` contract), so the service remains fully
/// functional in degraded mode.
pub proof fn lemma_fallback_when_never_ready(times: Seq<u64>)
    requires
        exists|i: int| 0 <= i < times.len() && times[i] >= PROBE_DEADLINE_MS,
    ensures
        run_failed_probes(SelectorPhase::Probing, times)
            == SelectorPhase::Committed(Backend::InMemory),
    decreases times.len(),
{
    let i = choose|i: int| 0 <= i < times.len() && times[i] >= PROBE_DEADLINE_MS;
    if times[0] >= PROBE_DEADLINE_MS {
        lemma_run_absorbs_once_committed(
            SelectorPhase::Committed(Backend::InMemory),
            times.drop_first(),
        );
    } else {
        assert(0 <= i - 1 < times.drop_first().len() && times.drop_first()[i - 1]
            >= PROBE_DEADLINE_MS);
        lemma_fallback_when_never_ready(times.drop_first());
    }
}

/// Once the selection has left `Probing`, further probe outcomes do not
/// move it: the committed choice is final.
pub proof fn lemma_run_absorbs_once_committed(phase: SelectorPhase, times: Seq<u64>)
    requires
        phase != SelectorPhase::Probing,
    ensures
        run_failed_probes(phase, times) == phase,
{
}

} // verus!
