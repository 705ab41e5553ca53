//! The control loop, as a state machine.
//!
//! One cycle samples a frame, maps its estimate to a brightness, has that
//! brightness applied, waits, and then, where adaptive sensitivity is on,
//! looks at what the display was really left at and learns from a manual
//! change. The loop itself neither reads a camera nor sets a display: it is
//! told what happened, as an [`Event`], and answers with what is to be done
//! next, as an [`Action`]. There is no last state.

use vstd::prelude::*;
use crate::config::Config;
use crate::estimate::Estimate;
use crate::learner::{learn, learned};
use crate::mapper::{target_brightness, target_for};
use crate::sampler::{average_of, calc_average, stride_offsets, SampleError, SampleIndexSet};

verus! {

/// What one cycle worked out: the raw estimate of its frame and the
/// brightness that was set for it.
#[derive(Clone, Copy, Debug, PartialEq, Eq, Structural)]
pub struct CycleResult {
    pub raw: Estimate,
    pub target: u8,
}

/// The result of a cycle that starts with the estimate `raw`: the target is
/// the estimate under the sensitivity of its zone.
pub open spec fn planned(config: Config, raw: Estimate) -> CycleResult {
    CycleResult {
        raw,
        target: target_for(
            raw.sum() as nat,
            raw.count() as nat,
            config.sensitivity_of(raw.zone()).millionths as int,
        ) as u8,
    }
}

/// Classifies a raw estimate and maps it to the brightness to set.
pub fn plan_cycle(config: &Config, raw: Estimate) -> (cycle: CycleResult)
    ensures
        cycle == planned(*config, raw),
        cycle.target <= 100,
{
    let sensitivity = config.sensitivity(raw.zone());
    CycleResult { raw, target: target_brightness(&raw, sensitivity) }
}

/// Where in its cycle the loop stands, that is, what it is waiting for.
#[derive(Clone, Copy, Debug, PartialEq, Eq, Structural)]
pub enum Phase {
    /// For the next frame.
    Sampling,
    /// For the brightness of this cycle to be applied and the delay to pass.
    Settling(CycleResult),
    /// For the brightness that the display is really at.
    Detecting(CycleResult),
    /// For the adjusted configuration to be stored.
    Storing,
}

/// What happened outside the loop.
#[derive(Clone, Copy, Debug)]
pub enum Event<'a> {
    /// The camera delivered a frame.
    Frame(&'a [u8]),
    /// The brightness was applied and the delay has passed.
    Settled,
    /// The display reported its brightness, in percent.
    Brightness(u8),
    /// The configuration was stored.
    Stored,
}

/// What is to be done outside the loop.
#[derive(Clone, Copy, Debug, PartialEq, Eq, Structural)]
pub enum Action {
    /// Capture one frame and release the camera.
    Capture,
    /// Set the display to `percent`, then wait for `delay` seconds.
    Apply { percent: u8, delay: u64 },
    /// Read the brightness that the display is at.
    ReadBrightness,
    /// Store this configuration.
    Store(Config),
}

/// Why the loop did not take an event.
#[derive(Clone, Copy, Debug, PartialEq, Eq, Structural)]
pub enum ControlError {
    /// The frame could not be sampled.
    Sample(SampleError),
    /// The event is not the one that the loop is waiting for.
    UnexpectedEvent,
}

/// The loop's state as contracts see it: the configuration with the
/// sensitivities as learned so far, the offsets at which every frame is
/// sampled, the length of the frames they were laid out for, and the phase.
pub struct LoopState {
    pub config: Config,
    pub offsets: Seq<usize>,
    pub frame_len: usize,
    pub phase: Phase,
}

impl LoopState {
    /// The state after `event` and the action that answers it, or the reason
    /// why the event is not taken.
    pub open spec fn next(self, event: Event) -> Result<(LoopState, Action), ControlError> {
        match (self.phase, event) {
            (Phase::Sampling, Event::Frame(frame)) => match average_of(
                frame@,
                self.offsets,
                self.frame_len,
            ) {
                Ok(raw) => {
                    let cycle = planned(self.config, raw);
                    Ok(
                        (
                            LoopState { phase: Phase::Settling(cycle), ..self },
                            Action::Apply { percent: cycle.target, delay: self.config.delay },
                        ),
                    )
                },
                Err(error) => Err(ControlError::Sample(error)),
            },
            (Phase::Settling(cycle), Event::Settled) => if self.config.adaptive_sensitivity {
                Ok((LoopState { phase: Phase::Detecting(cycle), ..self }, Action::ReadBrightness))
            } else {
                Ok((LoopState { phase: Phase::Sampling, ..self }, Action::Capture))
            },
            (Phase::Detecting(cycle), Event::Brightness(actual)) => if actual == cycle.target {
                Ok((LoopState { phase: Phase::Sampling, ..self }, Action::Capture))
            } else {
                let zone = cycle.raw.zone();
                let config = self.config.with_sensitivity(
                    zone,
                    learned(
                        self.config.sensitivity_of(zone),
                        cycle.target,
                        actual,
                        self.config.learning_coefficient,
                    ),
                );
                Ok((LoopState { config, phase: Phase::Storing, ..self }, Action::Store(config)))
            },
            (Phase::Storing, Event::Stored) => Ok(
                (LoopState { phase: Phase::Sampling, ..self }, Action::Capture),
            ),
            _ => Err(ControlError::UnexpectedEvent),
        }
    }
}

/// The control loop. Between two steps nothing of it can be changed from
/// outside: the sample offsets and the learning coefficient stay what they
/// were at the start, and the sensitivities change by learning only.
pub struct ControlLoop {
    config: Config,
    samples: SampleIndexSet,
    phase: Phase,
}

impl View for ControlLoop {
    type V = LoopState;

    closed spec fn view(&self) -> LoopState {
        LoopState {
            config: self.config,
            offsets: self.samples@,
            frame_len: self.samples.frame_len(),
            phase: self.phase,
        }
    }
}

impl ControlLoop {
    /// A loop for frames of `frame_len` bytes, about to sample its first
    /// frame: the first thing to do is to capture one.
    pub fn new(config: Config, frame_len: usize) -> (control: ControlLoop)
        requires
            config.step > 0,
        ensures
            control@ == (LoopState {
                config,
                offsets: stride_offsets(frame_len as nat, config.step as nat),
                frame_len,
                phase: Phase::Sampling,
            }),
    {
        ControlLoop {
            config,
            samples: SampleIndexSet::new(frame_len, config.step),
            phase: Phase::Sampling,
        }
    }

    /// The configuration, with the sensitivities as learned so far.
    pub fn config(&self) -> (config: Config)
        ensures
            config == self@.config,
    {
        self.config
    }

    /// What the loop is waiting for.
    pub fn phase(&self) -> (phase: Phase)
        ensures
            phase == self@.phase,
    {
        self.phase
    }

    /// The offsets at which every frame is sampled.
    pub fn samples(&self) -> (samples: &SampleIndexSet)
        ensures
            samples@ == self@.offsets,
            samples.frame_len() == self@.frame_len,
    {
        &self.samples
    }

    /// Takes one event. If it is the one that the loop is waiting for, the
    /// loop moves on and says what to do next; if not, the loop stays as it
    /// is and says why.
    pub fn step(&mut self, event: Event<'_>) -> (result: Result<Action, ControlError>)
        ensures
            match old(self)@.next(event) {
                Ok((state, action)) => final(self)@ == state && result == Ok::<
                    Action,
                    ControlError,
                >(action),
                Err(error) => final(self)@ == old(self)@ && result == Err::<Action, ControlError>(
                    error,
                ),
            },
    {
        let phase = self.phase;
        match (phase, event) {
            (Phase::Sampling, Event::Frame(frame)) => match calc_average(frame, &self.samples) {
                Ok(raw) => {
                    let cycle = plan_cycle(&self.config, raw);
                    self.phase = Phase::Settling(cycle);
                    Ok(Action::Apply { percent: cycle.target, delay: self.config.delay })
                },
                Err(error) => Err(ControlError::Sample(error)),
            },
            (Phase::Settling(cycle), Event::Settled) => {
                if self.config.adaptive_sensitivity {
                    self.phase = Phase::Detecting(cycle);
                    Ok(Action::ReadBrightness)
                } else {
                    self.phase = Phase::Sampling;
                    Ok(Action::Capture)
                }
            },
            (Phase::Detecting(cycle), Event::Brightness(actual)) => {
                if learn(&mut self.config, &cycle.raw, cycle.target, actual) {
                    self.phase = Phase::Storing;
                    Ok(Action::Store(self.config))
                } else {
                    self.phase = Phase::Sampling;
                    Ok(Action::Capture)
                }
            },
            (Phase::Storing, Event::Stored) => {
                self.phase = Phase::Sampling;
                Ok(Action::Capture)
            },
            _ => Err(ControlError::UnexpectedEvent),
        }
    }
}

/// A manual change is learned in the zone of the frame that the cycle began
/// with. From a frame to the reading of the display the loop asks for three
/// things in turn: to apply the target of the frame's estimate, to read the
/// display, and then either to capture again, if the display is at the target
/// and nothing has changed, or to store the configuration in which the
/// sensitivity of the estimate's zone, and no other, has learned from the
/// difference.
pub proof fn lemma_override_is_learned_in_the_sampled_zone(
    state: LoopState,
    frame: &[u8],
    actual: u8,
)
    requires
        state.phase == Phase::Sampling,
        state.config.adaptive_sensitivity,
        average_of(frame@, state.offsets, state.frame_len) is Ok,
    ensures
        ({
            let raw = average_of(frame@, state.offsets, state.frame_len)->Ok_0;
            let target = planned(state.config, raw).target;
            let sampled = state.next(Event::Frame(frame));
            let settled = sampled->Ok_0.0.next(Event::Settled);
            let detected = settled->Ok_0.0.next(Event::Brightness(actual));
            let adjusted = state.config.with_sensitivity(
                raw.zone(),
                learned(
                    state.config.sensitivity_of(raw.zone()),
                    target,
                    actual,
                    state.config.learning_coefficient,
                ),
            );
            &&& sampled is Ok
            &&& sampled->Ok_0.1 == (Action::Apply { percent: target, delay: state.config.delay })
            &&& settled is Ok
            &&& settled->Ok_0.1 == Action::ReadBrightness
            &&& detected is Ok
            &&& actual == target ==> detected->Ok_0.0 == state && detected->Ok_0.1
                == Action::Capture
            &&& actual != target ==> detected->Ok_0.0 == (LoopState {
                config: adjusted,
                phase: Phase::Storing,
                ..state
            }) && detected->Ok_0.1 == Action::Store(adjusted)
        }),
{
}

/// Without adaptive sensitivity a cycle never reads the display and never
/// changes the configuration: after the delay the loop asks for the next
/// frame.
pub proof fn lemma_fixed_sensitivity_skips_learning(state: LoopState, frame: &[u8])
    requires
        state.phase == Phase::Sampling,
        !state.config.adaptive_sensitivity,
        average_of(frame@, state.offsets, state.frame_len) is Ok,
    ensures
        ({
            let sampled = state.next(Event::Frame(frame));
            let settled = sampled->Ok_0.0.next(Event::Settled);
            &&& sampled is Ok
            &&& settled is Ok
            &&& settled->Ok_0.0 == state
            &&& settled->Ok_0.1 == Action::Capture
        }),
{
}

/// A step changes nothing but the phase and the three sensitivities: the
/// sample offsets, the learning coefficient and every other setting stay as
/// they are. The action that a step answers with names what the loop then
/// waits for.
pub proof fn lemma_step_keeps_settings(state: LoopState, event: Event)
    requires
        state.next(event) is Ok,
    ensures
        ({
            let (after, action) = state.next(event)->Ok_0;
            &&& after.offsets == state.offsets
            &&& after.frame_len == state.frame_len
            &&& after.config.camera == state.config.camera
            &&& after.config.delay == state.config.delay
            &&& after.config.adaptive_sensitivity == state.config.adaptive_sensitivity
            &&& after.config.learning_coefficient == state.config.learning_coefficient
            &&& after.config.step == state.config.step
            &&& action is Capture <==> after.phase is Sampling
            &&& action is Apply <==> after.phase is Settling
            &&& action is ReadBrightness <==> after.phase is Detecting
            &&& action is Store <==> after.phase is Storing
        }),
{
}

/// The loop has no last state: whatever its phase, there is an event that it
/// takes. A frame of the right length is taken while sampling, and in each
/// other phase the one event that reports the completion of what was asked
/// for.
pub proof fn lemma_no_terminal_state(state: LoopState, frame: &[u8], actual: u8)
    requires
        frame@.len() == state.frame_len,
        frame@.len() > 0,
    ensures
        state.phase is Sampling ==> state.next(Event::Frame(frame)) is Ok,
        state.phase is Settling ==> state.next(Event::Settled) is Ok,
        state.phase is Detecting ==> state.next(Event::Brightness(actual)) is Ok,
        state.phase is Storing ==> state.next(Event::Stored) is Ok,
{
}

} // verus!
