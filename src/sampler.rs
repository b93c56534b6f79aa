//! The sampling loop as a state machine.
//!
//! A run reads channel "in", then channel "out", records the pair, sleeps for
//! one interval, and starts over while the tick count is not reached. The
//! machine says which of these to do next ([`Sampler::action`]); the caller
//! does it and reports how it went ([`Sampler::on_event`]). A failed read ends
//! the run and discards every sample taken so far.
use crate::config::{DeviceError, RunConfig, RunError};
use crate::convert::RawSample;
use vstd::prelude::*;

verus! {

/// The two channels that a run reads.
#[derive(Clone, Copy, Debug, PartialEq, Eq, Structural)]
pub enum Channel {
    In,
    Out,
}

/// What the caller is to do next.
#[derive(Clone, Copy, Debug, PartialEq, Eq, Structural)]
pub enum Action {
    /// Perform one blocking conversion on this channel.
    Read(Channel),
    /// Block for this many microseconds.
    Sleep(u64),
    /// The run is complete; its series can be taken.
    Finished,
    /// The run failed with this error; it holds no samples.
    Failed(DeviceError),
}

/// The outcome of an action, handed back to the machine.
#[derive(Clone, Copy, Debug, PartialEq, Eq, Structural)]
pub enum Event {
    /// A read returned this code.
    Code(i16),
    /// A read failed.
    ReadFailed(DeviceError),
    /// A sleep is over.
    Slept,
}

/// Where a run stands.
#[derive(Clone, Copy, Debug, PartialEq, Eq, Structural)]
pub enum Phase {
    /// Channel "in" is to be read.
    ReadIn,
    /// Channel "in" gave this code; channel "out" is to be read.
    ReadOut(i16),
    /// A pair was recorded; the interval is to be slept.
    Sleep,
    /// Every tick was sampled.
    Finished,
    /// A read failed.
    Failed(DeviceError),
}

/// The abstract state of a run.
pub struct SamplerState {
    /// Ticks that the run takes.
    pub total: nat,
    /// Microseconds slept after each tick.
    pub interval: nat,
    /// Pairs recorded so far, in tick order.
    pub samples: Seq<RawSample>,
    pub phase: Phase,
}

/// The state of a run in which every tick is still to come.
pub open spec fn initial_state(total: nat, interval: nat) -> SamplerState {
    SamplerState { total, interval, samples: Seq::empty(), phase: Phase::ReadIn }
}

/// The states that a run can reach.
pub open spec fn state_wf(s: SamplerState) -> bool {
    &&& s.total >= 1
    &&& s.total <= u64::MAX
    &&& s.interval <= u64::MAX
    &&& s.samples.len() <= s.total
    &&& match s.phase {
        Phase::ReadIn => s.samples.len() < s.total,
        Phase::ReadOut(_) => s.samples.len() < s.total,
        Phase::Sleep => s.samples.len() >= 1,
        Phase::Finished => s.samples.len() == s.total,
        Phase::Failed(_) => s.samples.len() == 0,
    }
}

/// The action that a state asks for.
pub open spec fn action_of(s: SamplerState) -> Action {
    match s.phase {
        Phase::ReadIn => Action::Read(Channel::In),
        Phase::ReadOut(_) => Action::Read(Channel::Out),
        Phase::Sleep => Action::Sleep(s.interval as u64),
        Phase::Finished => Action::Finished,
        Phase::Failed(e) => Action::Failed(e),
    }
}

/// The state after an event. An event that does not answer the pending
/// action (a code while sleeping, a wake-up while reading) changes nothing,
/// and nothing changes a run that is over.
pub open spec fn next_state(s: SamplerState, e: Event) -> SamplerState {
    match (s.phase, e) {
        (Phase::ReadIn, Event::Code(c)) => SamplerState { phase: Phase::ReadOut(c), ..s },
        (Phase::ReadOut(c_in), Event::Code(c)) => SamplerState {
            samples: s.samples.push(RawSample { code_in: c_in, code_out: c }),
            phase: Phase::Sleep,
            ..s
        },
        (Phase::ReadIn, Event::ReadFailed(err)) => SamplerState {
            samples: Seq::empty(),
            phase: Phase::Failed(err),
            ..s
        },
        (Phase::ReadOut(_), Event::ReadFailed(err)) => SamplerState {
            samples: Seq::empty(),
            phase: Phase::Failed(err),
            ..s
        },
        (Phase::Sleep, Event::Slept) => SamplerState {
            phase: if s.samples.len() < s.total {
                Phase::ReadIn
            } else {
                Phase::Finished
            },
            ..s
        },
        _ => s,
    }
}

/// Whether a state asks for no more actions.
pub open spec fn is_over(s: SamplerState) -> bool {
    s.phase is Finished || s.phase is Failed
}

/// An upper bound on the number of events that a run still needs: three per
/// tick still to be sampled.
pub open spec fn steps_left(s: SamplerState) -> nat {
    let left = (s.total - s.samples.len()) as nat;
    match s.phase {
        Phase::ReadIn => 3 * left,
        Phase::ReadOut(_) => (3 * left - 1) as nat,
        Phase::Sleep => (3 * left + 1) as nat,
        Phase::Finished => 0,
        Phase::Failed(_) => 0,
    }
}

/// Every event keeps a run in a reachable state, and every event that answers
/// the pending action brings it closer to its end.
pub proof fn lemma_step_progress(s: SamplerState, e: Event)
    requires
        state_wf(s),
    ensures
        state_wf(next_state(s, e)),
        next_state(s, e) != s ==> steps_left(next_state(s, e)) < steps_left(s),
        is_over(s) ==> next_state(s, e) == s,
{
}

/// A sampling run in progress.
pub struct Sampler {
    total: u64,
    interval: u64,
    samples: Vec<RawSample>,
    phase: Phase,
}

impl View for Sampler {
    type V = SamplerState;

    closed spec fn view(&self) -> SamplerState {
        SamplerState {
            total: self.total as nat,
            interval: self.interval as nat,
            samples: self.samples@,
            phase: self.phase,
        }
    }
}

impl Sampler {
    /// Starts a run for a configuration, or refuses the configuration.
    pub fn new(config: &RunConfig) -> (r: Result<Sampler, RunError>)
        ensures
            config.error_spec() is Some ==> r == Err::<Sampler, RunError>(
                RunError::InvalidConfig(config.error_spec()->0),
            ),
            config.error_spec() is None ==> r is Ok && r->Ok_0@ == initial_state(
                config.ticks_spec() as nat,
                config.interval_micros as nat,
            ),
            r is Ok ==> state_wf(r->Ok_0@),
    {
        match config.sample_count() {
            Err(e) => Err(RunError::InvalidConfig(e)),
            Ok(total) => Ok(
                Sampler {
                    total,
                    interval: config.interval_micros as u64,
                    samples: Vec::new(),
                    phase: Phase::ReadIn,
                },
            ),
        }
    }

    /// What the caller is to do next.
    pub fn action(&self) -> (a: Action)
        ensures
            a == action_of(self@),
    {
        match self.phase {
            Phase::ReadIn => Action::Read(Channel::In),
            Phase::ReadOut(_) => Action::Read(Channel::Out),
            Phase::Sleep => Action::Sleep(self.interval),
            Phase::Finished => Action::Finished,
            Phase::Failed(e) => Action::Failed(e),
        }
    }

    /// Hands the outcome of the pending action to the machine.
    pub fn on_event(&mut self, e: Event)
        requires
            state_wf(old(self)@),
        ensures
            final(self)@ == next_state(old(self)@, e),
            state_wf(final(self)@),
    {
        proof {
            lemma_step_progress(self@, e);
        }
        match (self.phase, e) {
            (Phase::ReadIn, Event::Code(c)) => {
                self.phase = Phase::ReadOut(c);
            },
            (Phase::ReadOut(c_in), Event::Code(c)) => {
                self.samples.push(RawSample { code_in: c_in, code_out: c });
                self.phase = Phase::Sleep;
            },
            (Phase::ReadIn, Event::ReadFailed(err)) | (Phase::ReadOut(_), Event::ReadFailed(err)) => {
                self.samples = Vec::new();
                self.phase = Phase::Failed(err);
            },
            (Phase::Sleep, Event::Slept) => {
                if (self.samples.len() as u64) < self.total {
                    self.phase = Phase::ReadIn;
                } else {
                    self.phase = Phase::Finished;
                }
            },
            _ => {},
        }
    }

    /// Hands over the series of a finished run: one sample per tick.
    pub fn into_samples(self) -> (r: Vec<RawSample>)
        requires
            state_wf(self@),
            self@.phase is Finished,
        ensures
            r@ == self@.samples,
            r@.len() == self@.total,
    {
        self.samples
    }
}

} // verus!
