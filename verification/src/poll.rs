//! Bounded polling: probe, pause, probe again, until a probe succeeds or the
//! time has run out.
//!
//! The poller decides; its caller reads the clock, makes the probe and
//! pauses, and tells the poller what came of each.

use vstd::prelude::*;

verus! {

/// How long polling may take and how long it pauses between two probes, in
/// milliseconds.
#[derive(Clone, Copy, Debug, PartialEq, Eq, Structural)]
pub struct PollPolicy {
    pub timeout_ms: u64,
    pub interval_ms: u64,
}

/// What the poller waits for.
#[derive(Clone, Copy, Debug, PartialEq, Eq, Structural)]
pub enum PollPhase {
    /// The time since polling began is to be read.
    Timing,
    /// The probe is to be made.
    Probing,
    /// The pause between two probes is to be made.
    Pausing,
    /// A probe has succeeded.
    Succeeded,
    /// The time ran out before a probe succeeded.
    TimedOut,
}

/// What the caller reports to the poller.
#[derive(Clone, Copy, Debug, PartialEq, Eq, Structural)]
pub enum PollEvent {
    /// The milliseconds since polling began.
    Elapsed(u64),
    /// A probe was made, and whether it succeeded.
    Probed(bool),
    /// The pause was made.
    Paused,
}

/// What the poller asks of its caller.
#[derive(Clone, Copy, Debug, PartialEq, Eq, Structural)]
pub enum PollAction {
    /// Read the clock and report `Elapsed`.
    ReadClock,
    /// Make the probe and report `Probed`.
    Probe,
    /// Pause for so many milliseconds and report `Paused`.
    Pause(u64),
    /// Polling has ended: a probe succeeded.
    Succeed,
    /// Polling has ended: the time ran out.
    GiveUp,
}

/// The phase that follows `phase` on `event`. An event that the phase does
/// not wait for changes nothing.
pub open spec fn phase_after(policy: PollPolicy, phase: PollPhase, event: PollEvent) -> PollPhase {
    match (phase, event) {
        (PollPhase::Timing, PollEvent::Elapsed(ms)) => if ms < policy.timeout_ms {
            PollPhase::Probing
        } else {
            PollPhase::TimedOut
        },
        (PollPhase::Probing, PollEvent::Probed(success)) => if success {
            PollPhase::Succeeded
        } else {
            PollPhase::Pausing
        },
        (PollPhase::Pausing, PollEvent::Paused) => PollPhase::Timing,
        _ => phase,
    }
}

/// What a phase asks of the caller.
pub open spec fn action_of(policy: PollPolicy, phase: PollPhase) -> PollAction {
    match phase {
        PollPhase::Timing => PollAction::ReadClock,
        PollPhase::Probing => PollAction::Probe,
        PollPhase::Pausing => PollAction::Pause(policy.interval_ms),
        PollPhase::Succeeded => PollAction::Succeed,
        PollPhase::TimedOut => PollAction::GiveUp,
    }
}

/// The phase reached from `phase` by the events of `events`, in order.
pub open spec fn phase_after_all(policy: PollPolicy, phase: PollPhase, events: Seq<PollEvent>) -> PollPhase
    decreases events.len(),
{
    if events.len() == 0 {
        phase
    } else {
        phase_after(policy, phase_after_all(policy, phase, events.drop_last()), events.last())
    }
}

/// One run of bounded polling.
#[derive(Clone, Copy, Debug)]
pub struct Poller {
    policy: PollPolicy,
    phase: PollPhase,
}

impl Poller {
    /// The policy that the poller follows.
    pub closed spec fn spec_policy(&self) -> PollPolicy {
        self.policy
    }

    /// What the poller waits for.
    pub closed spec fn spec_phase(&self) -> PollPhase {
        self.phase
    }

    /// A poller at its beginning: it asks for the clock to be read.
    pub fn new(policy: PollPolicy) -> (r: Poller)
        ensures
            r.spec_policy() == policy,
            r.spec_phase() == PollPhase::Timing,
    {
        Poller { policy, phase: PollPhase::Timing }
    }

    /// The policy that the poller follows.
    pub fn policy(&self) -> (r: PollPolicy)
        ensures
            r == self.spec_policy(),
    {
        self.policy
    }

    /// What the poller waits for.
    pub fn phase(&self) -> (r: PollPhase)
        ensures
            r == self.spec_phase(),
    {
        self.phase
    }

    /// What the poller asks of its caller now.
    pub fn action(&self) -> (r: PollAction)
        ensures
            r == action_of(self.spec_policy(), self.spec_phase()),
    {
        match self.phase {
            PollPhase::Timing => PollAction::ReadClock,
            PollPhase::Probing => PollAction::Probe,
            PollPhase::Pausing => PollAction::Pause(self.policy.interval_ms),
            PollPhase::Succeeded => PollAction::Succeed,
            PollPhase::TimedOut => PollAction::GiveUp,
        }
    }

    /// Takes in what the caller reports and says what to do next.
    pub fn step(&mut self, event: PollEvent) -> (r: PollAction)
        ensures
            final(self).spec_policy() == old(self).spec_policy(),
            final(self).spec_phase() == phase_after(
                old(self).spec_policy(),
                old(self).spec_phase(),
                event,
            ),
            r == action_of(final(self).spec_policy(), final(self).spec_phase()),
    {
        let next = match (self.phase, event) {
            (PollPhase::Timing, PollEvent::Elapsed(ms)) => if ms < self.policy.timeout_ms {
                PollPhase::Probing
            } else {
                PollPhase::TimedOut
            },
            (PollPhase::Probing, PollEvent::Probed(success)) => if success {
                PollPhase::Succeeded
            } else {
                PollPhase::Pausing
            },
            (PollPhase::Pausing, PollEvent::Paused) => PollPhase::Timing,
            _ => self.phase,
        };
        self.phase = next;
        self.action()
    }

    /// Whether polling has ended.
    pub fn is_finished(&self) -> (r: bool)
        ensures
            r == (self.spec_phase() == PollPhase::Succeeded || self.spec_phase()
                == PollPhase::TimedOut),
    {
        match self.phase {
            PollPhase::Succeeded => true,
            PollPhase::TimedOut => true,
            _ => false,
        }
    }

    /// Whether polling has ended with a probe that succeeded.
    pub fn has_succeeded(&self) -> (r: bool)
        ensures
            r == (self.spec_phase() == PollPhase::Succeeded),
    {
        match self.phase {
            PollPhase::Succeeded => true,
            _ => false,
        }
    }
}

/// Polling ends well only on a probe that succeeded, and gives up only on a
/// reading of the clock that is not below the time allowed.
pub proof fn lemma_how_polling_ends(policy: PollPolicy, phase: PollPhase, event: PollEvent)
    ensures
        phase != PollPhase::Succeeded && phase_after(policy, phase, event) == PollPhase::Succeeded
            ==> phase == PollPhase::Probing && event == PollEvent::Probed(true),
        phase != PollPhase::TimedOut && phase_after(policy, phase, event) == PollPhase::TimedOut
            ==> phase == PollPhase::Timing && (event matches PollEvent::Elapsed(ms) && ms
            >= policy.timeout_ms),
{
}

/// Once polling has ended, no event changes how it ended.
pub proof fn lemma_end_is_final(policy: PollPolicy, phase: PollPhase, events: Seq<PollEvent>)
    requires
        phase == PollPhase::Succeeded || phase == PollPhase::TimedOut,
    ensures
        phase_after_all(policy, phase, events) == phase,
    decreases events.len(),
{
    if events.len() > 0 {
        lemma_end_is_final(policy, phase, events.drop_last());
    }
}

/// Whatever is reported to a poller from its beginning on: if it ends well, a
/// probe that succeeded was reported; if it gives up, a reading of the clock
/// that is not below the time allowed was reported.
pub proof fn lemma_run_ends_for_a_reason(policy: PollPolicy, events: Seq<PollEvent>)
    ensures
        phase_after_all(policy, PollPhase::Timing, events) == PollPhase::Succeeded ==> exists|
            i: int,
        |
            0 <= i < events.len() && #[trigger] events[i] == PollEvent::Probed(true),
        phase_after_all(policy, PollPhase::Timing, events) == PollPhase::TimedOut ==> exists|
            i: int,
        |
            0 <= i < events.len() && (#[trigger] events[i] matches PollEvent::Elapsed(ms) && ms
                >= policy.timeout_ms),
    decreases events.len(),
{
    if events.len() > 0 {
        let before = events.drop_last();
        let last = events.len() - 1;
        lemma_run_ends_for_a_reason(policy, before);
        let phase = phase_after_all(policy, PollPhase::Timing, before);
        lemma_how_polling_ends(policy, phase, events.last());
        if phase_after_all(policy, PollPhase::Timing, events) == PollPhase::Succeeded {
            if phase == PollPhase::Succeeded {
                let i = choose|i: int|
                    0 <= i < before.len() && #[trigger] before[i] == PollEvent::Probed(true);
                assert(events[i] == before[i]);
            } else {
                assert(events[last] == PollEvent::Probed(true));
            }
        }
        if phase_after_all(policy, PollPhase::Timing, events) == PollPhase::TimedOut {
            if phase == PollPhase::TimedOut {
                let i = choose|i: int|
                    0 <= i < before.len() && (#[trigger] before[i] matches PollEvent::Elapsed(ms)
                        && ms >= policy.timeout_ms);
                assert(events[i] == before[i]);
            } else {
                assert(events[last] matches PollEvent::Elapsed(ms) && ms >= policy.timeout_ms);
            }
        }
    }
}

/// When the poller gives up. `readings` are the readings of the clock that a
/// run reports, the first below the time allowed and each at most `round_ms`
/// after the one before it. Then the first reading on which the poller gives
/// up lies at or after the time allowed, and less than `round_ms` after it.
pub proof fn lemma_gives_up_in_time(
    policy: PollPolicy,
    readings: Seq<u64>,
    round_ms: u64,
    k: int,
)
    requires
        0 <= k < readings.len(),
        readings[0] < policy.timeout_ms,
        forall|i: int|
            0 < i < readings.len() ==> #[trigger] readings[i] <= readings[i - 1] + round_ms,
        phase_after(policy, PollPhase::Timing, PollEvent::Elapsed(readings[k]))
            == PollPhase::TimedOut,
        forall|i: int|
            0 <= i < k ==> phase_after(
                policy,
                PollPhase::Timing,
                PollEvent::Elapsed(#[trigger] readings[i]),
            ) == PollPhase::Probing,
    ensures
        policy.timeout_ms <= readings[k] < policy.timeout_ms + round_ms,
{
    assert(k > 0);
    assert(readings[k] <= readings[k - 1] + round_ms);
    assert(phase_after(policy, PollPhase::Timing, PollEvent::Elapsed(readings[k - 1]))
        == PollPhase::Probing);
}

} // verus!
