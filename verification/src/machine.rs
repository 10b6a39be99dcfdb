//! Actuation and sensing decisions: the drop state machine, the motor
//! result mapping, and stock sensing.
//!
//! A drop is strictly sequential: validate, pre-signal the latch,
//! energize, hold (a fixed delay, or a confirmation wait on the
//! completion sensor), deenergize, and a backend-specific safety closure.
//! The machine here decides every step; the surrounding binary performs
//! the hardware action it is handed and reports back what happened.

use vstd::prelude::*;
use vstd::string::*;
use crate::config::{display_spec, ConfigData, SlotConfig, SlotKind};
use crate::text::{dec_str, u64_to_dec};

verus! {

/// The successful outcome of a drop.
#[derive(Clone, Copy, Debug, PartialEq, Eq, Structural)]
pub enum DropState {
    Success,
}

/// The failure outcomes of a drop: a slot number outside the configured
/// range, or a hardware actuation step that reported an error.
#[derive(Clone, Copy, Debug, PartialEq, Eq, Structural)]
pub enum DropError {
    MotorFailed,
    BadSlot,
}

/// The electrical signal value for a motor state: 1 energizes, 0 releases.
pub fn motor_signal(energize: bool) -> (v: u8)
    ensures
        v == (if energize { 1u8 } else { 0u8 }),
{
    if energize {
        1
    } else {
        0
    }
}

/// Maps the outcome of one actuation write (a device-file write or a line
/// set, performed by the caller) to the drop result: any I/O failure is a
/// `MotorFailed`, never a panic.
pub fn run_motor(io_ok: bool) -> (r: Result<DropState, DropError>)
    ensures
        io_ok ==> r == Ok::<DropState, DropError>(DropState::Success),
        !io_ok ==> r == Err::<DropState, DropError>(DropError::MotorFailed),
{
    if io_ok {
        Ok(DropState::Success)
    } else {
        Err(DropError::MotorFailed)
    }
}

/// What the surrounding binary reports back to the drop machine: the
/// drop was begun, the latch request was sent, an actuation write
/// finished (with or without an I/O error), a sleep elapsed, or the
/// completion sensor was read.
#[derive(Clone, Copy, Debug, PartialEq, Eq, Structural)]
pub enum DropEvent {
    Started,
    LatchOpened,
    ActuationDone(bool),
    Slept,
    CamValue(u8),
}

/// What the drop machine asks the surrounding binary to do next.
#[derive(Clone, Copy, Debug, PartialEq, Eq)]
pub enum DropAction {
    /// Send an open request to the shared latch worker.
    OpenLatch,
    /// Write the motor signal: true energizes, false releases.
    Actuate(bool),
    /// Sleep for this many milliseconds.
    SleepMs(u64),
    /// Read the completion sensor line.
    ReadCam,
    /// The drop is over; report this outcome to the caller.
    Finish(Result<DropState, DropError>),
    /// The event did not belong to the current step; nothing to do.
    Ignored,
}

/// The steps of one drop, in the order they run.
#[derive(Clone, Copy, Debug, PartialEq, Eq, Structural)]
pub enum DropPhase {
    Begin,
    LatchRequested,
    Energizing,
    Holding,
    AwaitCam,
    CamSleeping,
    Deenergizing,
    Settling,
    Reasserting,
    Finished,
}

/// One drop in progress: the wiring shape of the slot being dropped, the
/// timing parameters, whether a shared latch must be pre-signalled, the
/// current step, and whether any actuation step has failed so far.
#[derive(Clone, Copy, Debug, PartialEq, Eq, Structural)]
pub struct DropRun {
    pub kind: SlotKind,
    pub drop_delay: u64,
    pub poll_delay: u64,
    pub use_latch: bool,
    pub phase: DropPhase,
    pub failed: bool,
}

/// The machine a fresh drop starts with.
pub open spec fn initial_run(kind: SlotKind, drop_delay: u64, poll_delay: u64, use_latch: bool) -> DropRun {
    DropRun {
        kind,
        drop_delay,
        poll_delay,
        use_latch,
        phase: DropPhase::Begin,
        failed: false,
    }
}

/// The outcome a run reports: the first-seen actuation error, or success.
pub open spec fn outcome(r: DropRun) -> Result<DropState, DropError> {
    if r.failed {
        Err(DropError::MotorFailed)
    } else {
        Ok(DropState::Success)
    }
}

/// The transition relation of the drop machine: from a state and an
/// event to the next state and the action the binary must perform.
///
/// An energize failure is recorded but the machine still proceeds to the
/// deactivation steps, so the motor is never left commanded on by an
/// early return; a deenergize failure is likewise recorded and, for the
/// addressable backend, the settle-and-reassert closure still runs. An
/// event that does not belong to the current step changes nothing.
pub open spec fn spec_step(pre: DropRun, ev: DropEvent) -> (DropRun, DropAction) {
    match (pre.phase, ev) {
        (DropPhase::Begin, DropEvent::Started) => {
            if pre.use_latch {
                (DropRun { phase: DropPhase::LatchRequested, ..pre }, DropAction::OpenLatch)
            } else {
                (DropRun { phase: DropPhase::Energizing, ..pre }, DropAction::Actuate(true))
            }
        },
        (DropPhase::LatchRequested, DropEvent::LatchOpened) => {
            (DropRun { phase: DropPhase::Energizing, ..pre }, DropAction::Actuate(true))
        },
        (DropPhase::Energizing, DropEvent::ActuationDone(ok)) => {
            if ok {
                match pre.kind {
                    SlotKind::NewdrinkSmall => {
                        (DropRun { phase: DropPhase::AwaitCam, ..pre }, DropAction::ReadCam)
                    },
                    _ => {
                        (
                            DropRun { phase: DropPhase::Holding, ..pre },
                            DropAction::SleepMs(pre.drop_delay),
                        )
                    },
                }
            } else {
                (
                    DropRun { phase: DropPhase::Deenergizing, failed: true, ..pre },
                    DropAction::Actuate(false),
                )
            }
        },
        (DropPhase::Holding, DropEvent::Slept) => {
            (DropRun { phase: DropPhase::Deenergizing, ..pre }, DropAction::Actuate(false))
        },
        (DropPhase::AwaitCam, DropEvent::CamValue(v)) => {
            if v == 1 {
                (DropRun { phase: DropPhase::Deenergizing, ..pre }, DropAction::Actuate(false))
            } else {
                (
                    DropRun { phase: DropPhase::CamSleeping, ..pre },
                    DropAction::SleepMs(pre.poll_delay),
                )
            }
        },
        (DropPhase::CamSleeping, DropEvent::Slept) => {
            (DropRun { phase: DropPhase::AwaitCam, ..pre }, DropAction::ReadCam)
        },
        (DropPhase::Deenergizing, DropEvent::ActuationDone(ok)) => {
            let post = DropRun { failed: pre.failed || !ok, ..pre };
            match pre.kind {
                SlotKind::Owfs => {
                    (
                        DropRun { phase: DropPhase::Settling, ..post },
                        DropAction::SleepMs(pre.drop_delay),
                    )
                },
                _ => {
                    (
                        DropRun { phase: DropPhase::Finished, ..post },
                        DropAction::Finish(outcome(post)),
                    )
                },
            }
        },
        (DropPhase::Settling, DropEvent::Slept) => {
            (DropRun { phase: DropPhase::Reasserting, ..pre }, DropAction::Actuate(false))
        },
        (DropPhase::Reasserting, DropEvent::ActuationDone(ok)) => {
            let post = DropRun { failed: pre.failed || !ok, ..pre };
            (
                DropRun { phase: DropPhase::Finished, ..post },
                DropAction::Finish(outcome(post)),
            )
        },
        (DropPhase::Finished, _) => (pre, DropAction::Finish(outcome(pre))),
        _ => (pre, DropAction::Ignored),
    }
}

impl DropRun {
    /// Advances the drop by one event and returns the next action.
    pub fn step(&mut self, ev: DropEvent) -> (act: DropAction)
        ensures
            (*final(self), act) == spec_step(*old(self), ev),
    {
        match (self.phase, ev) {
            (DropPhase::Begin, DropEvent::Started) => {
                if self.use_latch {
                    self.phase = DropPhase::LatchRequested;
                    DropAction::OpenLatch
                } else {
                    self.phase = DropPhase::Energizing;
                    DropAction::Actuate(true)
                }
            },
            (DropPhase::LatchRequested, DropEvent::LatchOpened) => {
                self.phase = DropPhase::Energizing;
                DropAction::Actuate(true)
            },
            (DropPhase::Energizing, DropEvent::ActuationDone(ok)) => {
                if ok {
                    match self.kind {
                        SlotKind::NewdrinkSmall => {
                            self.phase = DropPhase::AwaitCam;
                            DropAction::ReadCam
                        },
                        _ => {
                            self.phase = DropPhase::Holding;
                            DropAction::SleepMs(self.drop_delay)
                        },
                    }
                } else {
                    self.failed = true;
                    self.phase = DropPhase::Deenergizing;
                    DropAction::Actuate(false)
                }
            },
            (DropPhase::Holding, DropEvent::Slept) => {
                self.phase = DropPhase::Deenergizing;
                DropAction::Actuate(false)
            },
            (DropPhase::AwaitCam, DropEvent::CamValue(v)) => {
                if v == 1 {
                    self.phase = DropPhase::Deenergizing;
                    DropAction::Actuate(false)
                } else {
                    self.phase = DropPhase::CamSleeping;
                    DropAction::SleepMs(self.poll_delay)
                }
            },
            (DropPhase::CamSleeping, DropEvent::Slept) => {
                self.phase = DropPhase::AwaitCam;
                DropAction::ReadCam
            },
            (DropPhase::Deenergizing, DropEvent::ActuationDone(ok)) => {
                if !ok {
                    self.failed = true;
                }
                match self.kind {
                    SlotKind::Owfs => {
                        self.phase = DropPhase::Settling;
                        DropAction::SleepMs(self.drop_delay)
                    },
                    _ => {
                        self.phase = DropPhase::Finished;
                        if self.failed {
                            DropAction::Finish(Err(DropError::MotorFailed))
                        } else {
                            DropAction::Finish(Ok(DropState::Success))
                        }
                    },
                }
            },
            (DropPhase::Settling, DropEvent::Slept) => {
                self.phase = DropPhase::Reasserting;
                DropAction::Actuate(false)
            },
            (DropPhase::Reasserting, DropEvent::ActuationDone(ok)) => {
                if !ok {
                    self.failed = true;
                }
                self.phase = DropPhase::Finished;
                if self.failed {
                    DropAction::Finish(Err(DropError::MotorFailed))
                } else {
                    DropAction::Finish(Ok(DropState::Success))
                }
            },
            (DropPhase::Finished, _) => {
                if self.failed {
                    DropAction::Finish(Err(DropError::MotorFailed))
                } else {
                    DropAction::Finish(Ok(DropState::Success))
                }
            },
            _ => DropAction::Ignored,
        }
    }

    /// True once the run has reported its outcome.
    pub fn is_finished(&self) -> (b: bool)
        ensures
            b == (self.phase == DropPhase::Finished),
    {
        match self.phase {
            DropPhase::Finished => true,
            _ => false,
        }
    }
}

/// Begins a drop: validates the 1-based slot number against the
/// configured slot list and, for a valid number, returns the fresh state
/// machine for that slot's wiring. An out-of-range or zero number is
/// rejected as `BadSlot` before any machine exists, so no hardware
/// action is ever issued for it.
pub fn drop(config: &ConfigData, slot: usize) -> (r: Result<DropRun, DropError>)
    ensures
        (slot == 0 || slot > config.slots@.len()) <==> r == Err::<DropRun, DropError>(
            DropError::BadSlot,
        ),
        1 <= slot <= config.slots@.len() ==> r == Ok::<DropRun, DropError>(
            initial_run(
                config.slots@[slot - 1].kind_spec(),
                config.drop_delay,
                config.poll_delay,
                config.latch is Some,
            ),
        ),
{
    if slot == 0 || slot > config.slots.len() {
        return Err(DropError::BadSlot);
    }
    let kind = config.slots[slot - 1].kind();
    Ok(
        DropRun {
            kind,
            drop_delay: config.drop_delay,
            poll_delay: config.poll_delay,
            use_latch: config.latch.is_some(),
            phase: DropPhase::Begin,
            failed: false,
        },
    )
}

/// The actions a run issues over a sequence of events.
pub open spec fn run_trace(r: DropRun, evs: Seq<DropEvent>) -> Seq<DropAction>
    decreases evs.len(),
{
    if evs.len() == 0 {
        Seq::empty()
    } else {
        seq![spec_step(r, evs[0]).1] + run_trace(spec_step(r, evs[0]).0, evs.drop_first())
    }
}

/// The state a run reaches after a sequence of events.
pub open spec fn run_final(r: DropRun, evs: Seq<DropEvent>) -> DropRun
    decreases evs.len(),
{
    if evs.len() == 0 {
        r
    } else {
        run_final(spec_step(r, evs[0]).0, evs.drop_first())
    }
}

/// Traces compose: the actions over a concatenation of event sequences
/// are the actions over the first followed by the actions the reached
/// state issues over the second.
pub proof fn lemma_run_trace_concat(r: DropRun, evs1: Seq<DropEvent>, evs2: Seq<DropEvent>)
    ensures
        run_trace(r, evs1 + evs2) =~= run_trace(r, evs1) + run_trace(run_final(r, evs1), evs2),
        run_final(r, evs1 + evs2) == run_final(run_final(r, evs1), evs2),
    decreases evs1.len(),
{
    if evs1.len() == 0 {
        assert(evs1 + evs2 =~= evs2);
    } else {
        let r2 = spec_step(r, evs1[0]).0;
        assert((evs1 + evs2).drop_first() =~= evs1.drop_first() + evs2);
        lemma_run_trace_concat(r2, evs1.drop_first(), evs2);
    }
}

/// A successful drop on an addressable (1-wire) slot issues exactly:
/// energize, sleep the drop delay, deenergize, sleep the drop delay
/// again, and deenergize a second time — the defensive re-assertion this
/// backend needs — before reporting success.
pub proof fn lemma_owfs_success_trace(run: DropRun)
    requires
        run == initial_run(SlotKind::Owfs, run.drop_delay, run.poll_delay, false),
    ensures
        run_trace(
            run,
            seq![
                DropEvent::Started,
                DropEvent::ActuationDone(true),
                DropEvent::Slept,
                DropEvent::ActuationDone(true),
                DropEvent::Slept,
                DropEvent::ActuationDone(true),
            ],
        ) =~= seq![
            DropAction::Actuate(true),
            DropAction::SleepMs(run.drop_delay),
            DropAction::Actuate(false),
            DropAction::SleepMs(run.drop_delay),
            DropAction::Actuate(false),
            DropAction::Finish(Ok(DropState::Success)),
        ],
{
    reveal_with_fuel(run_trace, 7);
}

/// A successful drop on a discrete GPIO slot issues exactly: energize,
/// sleep the drop delay, deenergize — no repeated deenergize, since the
/// kernel-held line is trusted to keep its last value.
pub proof fn lemma_gpio_success_trace(run: DropRun)
    requires
        run == initial_run(SlotKind::Gpio, run.drop_delay, run.poll_delay, false),
    ensures
        run_trace(
            run,
            seq![
                DropEvent::Started,
                DropEvent::ActuationDone(true),
                DropEvent::Slept,
                DropEvent::ActuationDone(true),
            ],
        ) =~= seq![
            DropAction::Actuate(true),
            DropAction::SleepMs(run.drop_delay),
            DropAction::Actuate(false),
            DropAction::Finish(Ok(DropState::Success)),
        ],
{
    reveal_with_fuel(run_trace, 5);
}

/// The motor signal left commanded after a sequence of actions, given
/// the signal commanded before it: the value of the last `Actuate`
/// action, or the prior signal if the sequence actuates nothing.
pub open spec fn last_signal(prior: Option<bool>, trace: Seq<DropAction>) -> Option<bool>
    decreases trace.len(),
{
    if trace.len() == 0 {
        prior
    } else {
        last_signal(
            match trace[0] {
                DropAction::Actuate(on) => Some(on),
                _ => prior,
            },
            trace.drop_first(),
        )
    }
}

/// The motor signal a run's phase implies was commanded last: nothing
/// before the first energize, energize while the drop is underway, and
/// release from the first deenergize on, including every finished run.
pub open spec fn commanded_signal(phase: DropPhase) -> Option<bool> {
    match phase {
        DropPhase::Begin | DropPhase::LatchRequested => None,
        DropPhase::Energizing | DropPhase::Holding | DropPhase::AwaitCam
            | DropPhase::CamSleeping => Some(true),
        DropPhase::Deenergizing | DropPhase::Settling | DropPhase::Reasserting
            | DropPhase::Finished => Some(false),
    }
}

/// The actions a run issues always leave the motor signal that its
/// phase implies: the commanded signal tracks the machine exactly,
/// whatever events arrive.
pub proof fn lemma_signal_tracks_phase(r: DropRun, evs: Seq<DropEvent>)
    ensures
        last_signal(commanded_signal(r.phase), run_trace(r, evs)) == commanded_signal(
            run_final(r, evs).phase,
        ),
    decreases evs.len(),
{
    if evs.len() > 0 {
        let r1 = spec_step(r, evs[0]).0;
        let a = spec_step(r, evs[0]).1;
        assert((match a {
            DropAction::Actuate(on) => Some(on),
            _ => commanded_signal(r.phase),
        }) == commanded_signal(r1.phase));
        lemma_signal_tracks_phase(r1, evs.drop_first());
        assert(run_trace(r, evs).drop_first() =~= run_trace(r1, evs.drop_first()));
    }
}

/// Safety closure: a run that reaches `Finished` has commanded the
/// motor off last. Even under partial failure — an energize or
/// deenergize write that reported an error — no sequence of events
/// makes the machine report an outcome while its last issued motor
/// signal was energize.
pub proof fn lemma_finished_leaves_motor_off(r: DropRun, evs: Seq<DropEvent>)
    requires
        r.phase == DropPhase::Begin,
        run_final(r, evs).phase == DropPhase::Finished,
    ensures
        last_signal(None, run_trace(r, evs)) == Some(false),
{
    lemma_signal_tracks_phase(r, evs);
}

/// With a shared latch configured, a drop pre-signals the latch before
/// its first actuation: the first two actions of any run, whatever the
/// slot's wiring, are the latch request and then the energize.
pub proof fn lemma_latch_presignal_trace(run: DropRun)
    requires
        run == initial_run(run.kind, run.drop_delay, run.poll_delay, true),
    ensures
        run_trace(run, seq![DropEvent::Started, DropEvent::LatchOpened]) =~= seq![
            DropAction::OpenLatch,
            DropAction::Actuate(true),
        ],
{
    reveal_with_fuel(run_trace, 3);
}

/// An energize failure does not end the drop early: the machine at once
/// commands the motor off, still runs the addressable slot's settle and
/// re-assert closure, and only then reports the failure.
pub proof fn lemma_owfs_energize_failure_trace(run: DropRun)
    requires
        run == initial_run(SlotKind::Owfs, run.drop_delay, run.poll_delay, false),
    ensures
        run_trace(
            run,
            seq![
                DropEvent::Started,
                DropEvent::ActuationDone(false),
                DropEvent::ActuationDone(true),
                DropEvent::Slept,
                DropEvent::ActuationDone(true),
            ],
        ) =~= seq![
            DropAction::Actuate(true),
            DropAction::Actuate(false),
            DropAction::SleepMs(run.drop_delay),
            DropAction::Actuate(false),
            DropAction::Finish(Err(DropError::MotorFailed)),
        ],
{
    reveal_with_fuel(run_trace, 6);
}

/// The events of `k` rounds of an unfinished confirmation wait: the
/// sensor reads `v` (not yet complete), the poll-delay sleep elapses.
pub open spec fn cam_poll_events(v: u8, k: nat) -> Seq<DropEvent>
    decreases k,
{
    if k == 0 {
        Seq::empty()
    } else {
        seq![DropEvent::CamValue(v), DropEvent::Slept] + cam_poll_events(v, (k - 1) as nat)
    }
}

/// The actions of `k` rounds of an unfinished confirmation wait: sleep
/// the poll delay, read the sensor again.
pub open spec fn cam_poll_actions(poll_delay: u64, k: nat) -> Seq<DropAction>
    decreases k,
{
    if k == 0 {
        Seq::empty()
    } else {
        seq![DropAction::SleepMs(poll_delay), DropAction::ReadCam] + cam_poll_actions(
            poll_delay,
            (k - 1) as nat,
        )
    }
}

/// The confirmation wait has no bound: as long as the completion sensor
/// reports anything but 1, the machine only sleeps the poll delay and
/// reads again — for any number of rounds it neither deenergizes nor
/// finishes, and it is still waiting on the sensor afterwards.
pub proof fn lemma_sensed_wait_blocks(run: DropRun, v: u8, k: nat)
    requires
        run.phase == DropPhase::AwaitCam,
        v != 1,
    ensures
        run_trace(run, cam_poll_events(v, k)) =~= cam_poll_actions(run.poll_delay, k),
        run_final(run, cam_poll_events(v, k)) == run,
    decreases k,
{
    if k > 0 {
        let evs1 = seq![DropEvent::CamValue(v), DropEvent::Slept];
        lemma_run_trace_concat(run, evs1, cam_poll_events(v, (k - 1) as nat));
        assert(evs1 + cam_poll_events(v, (k - 1) as nat) =~= cam_poll_events(v, k));
        reveal_with_fuel(run_trace, 3);
        reveal_with_fuel(run_final, 3);
        assert(run_final(run, evs1) == run);
        lemma_sensed_wait_blocks(run, v, (k - 1) as nat);
        assert(run_trace(run, evs1) =~= seq![
            DropAction::SleepMs(run.poll_delay),
            DropAction::ReadCam,
        ]);
    }
}

/// A successful drop on a completion-sensed slot whose sensor reports 1
/// only after `k` other readings issues exactly: energize, one sensor
/// read, then `k` rounds of poll-delay sleep and re-read, then
/// deenergize and success. With a sensor that reports completion at
/// once (`k == 0`) the wait executes exactly once: a single read, no
/// poll sleep.
pub proof fn lemma_sensed_success_trace(run: DropRun, v: u8, k: nat)
    requires
        run == initial_run(SlotKind::NewdrinkSmall, run.drop_delay, run.poll_delay, false),
        v != 1,
    ensures
        run_trace(
            run,
            seq![DropEvent::Started, DropEvent::ActuationDone(true)] + cam_poll_events(v, k)
                + seq![DropEvent::CamValue(1), DropEvent::ActuationDone(true)],
        ) =~= seq![DropAction::Actuate(true), DropAction::ReadCam] + cam_poll_actions(
            run.poll_delay,
            k,
        ) + seq![DropAction::Actuate(false), DropAction::Finish(Ok(DropState::Success))],
{
    let evs1 = seq![DropEvent::Started, DropEvent::ActuationDone(true)];
    let evs3 = seq![DropEvent::CamValue(1), DropEvent::ActuationDone(true)];
    let waiting = DropRun { phase: DropPhase::AwaitCam, ..run };
    reveal_with_fuel(run_trace, 3);
    reveal_with_fuel(run_final, 3);
    assert(run_final(run, evs1) == waiting);
    assert(run_trace(run, evs1) =~= seq![DropAction::Actuate(true), DropAction::ReadCam]);
    lemma_sensed_wait_blocks(waiting, v, k);
    assert(run_trace(waiting, evs3) =~= seq![
        DropAction::Actuate(false),
        DropAction::Finish(Ok(DropState::Success)),
    ]);
    lemma_run_trace_concat(run, evs1, cam_poll_events(v, k) + evs3);
    lemma_run_trace_concat(waiting, cam_poll_events(v, k), evs3);
    assert(evs1 + (cam_poll_events(v, k) + evs3) =~= evs1 + cam_poll_events(v, k) + evs3);
}

/// What the hardware reported when a slot's stock state was sensed: for
/// an addressable slot, whether its identity file was openable (a
/// presence proxy); for the GPIO slots, the sense line's value, or
/// nothing if the read itself failed.
#[derive(Clone, Copy, Debug, PartialEq, Eq)]
pub enum StockReading {
    Presence(bool),
    LineValue(Option<u8>),
}

/// Whether a reading means "stocked" for a slot: presence for an
/// addressable slot, logical 1 on the sense line for a GPIO slot. A
/// failed line read, or a reading of the wrong shape for the slot's
/// wiring, is fail-safe "not stocked".
pub open spec fn stocked_spec(slot: SlotConfig, reading: StockReading) -> bool {
    match reading {
        StockReading::Presence(p) => slot is OWFS && p,
        StockReading::LineValue(v) => !(slot is OWFS) && v == Some(1u8),
    }
}

/// Decides a slot's stock state from what the hardware reported. For a
/// GPIO slot the result is true iff the sense line read logical 1; a
/// read error (no value) gives false, never an error to the caller.
pub fn is_stocked(slot: &SlotConfig, reading: &StockReading) -> (b: bool)
    ensures
        b == stocked_spec(*slot, *reading),
{
    match reading {
        StockReading::Presence(p) => {
            match slot {
                SlotConfig::OWFS(_) => *p,
                _ => false,
            }
        },
        StockReading::LineValue(v) => {
            match slot {
                SlotConfig::OWFS(_) => false,
                _ => {
                    match v {
                        Some(x) => *x == 1,
                        None => false,
                    }
                },
            }
        },
    }
}

/// One slot's reported status: its display identity, its 1-indexed
/// position in wiring order, and its sensed stock state. Recomputed on
/// every query, never cached.
#[derive(Debug)]
pub struct SlotStatus {
    pub id: String,
    pub number: i32,
    pub stocked: bool,
}

/// The status of every configured slot, in wiring order and 1-indexed,
/// from the given per-slot readings.
pub fn get_slots(config: &ConfigData, readings: &Vec<StockReading>) -> (r: Vec<SlotStatus>)
    requires
        readings@.len() == config.slots@.len(),
        config.slots@.len() <= i32::MAX,
    ensures
        r@.len() == config.slots@.len(),
        forall|i: int|
            0 <= i < r@.len() ==> {
                &&& (#[trigger] r@[i]).id@ == display_spec(config.slots@[i])
                &&& r@[i].number == i + 1
                &&& r@[i].stocked == stocked_spec(config.slots@[i], readings@[i])
            },
{
    let mut r: Vec<SlotStatus> = Vec::new();
    let mut i: usize = 0;
    while i < config.slots.len()
        invariant
            readings@.len() == config.slots@.len(),
            config.slots@.len() <= i32::MAX,
            i <= config.slots@.len(),
            r@.len() == i,
            forall|j: int|
                0 <= j < i ==> {
                    &&& (#[trigger] r@[j]).id@ == display_spec(config.slots@[j])
                    &&& r@[j].number == j + 1
                    &&& r@[j].stocked == stocked_spec(config.slots@[j], readings@[j])
                },
        decreases config.slots@.len() - i,
    {
        let slot = &config.slots[i];
        let status = SlotStatus {
            id: slot.display(),
            number: (i + 1) as i32,
            stocked: is_stocked(slot, &readings[i]),
        };
        r.push(status);
        i = i + 1;
    }
    r
}

/// The line the legacy status report shows for one slot.
pub open spec fn slot_line_spec(slot: SlotConfig, reading: StockReading, number: nat) -> Seq<
    char,
> {
    "Slot "@ + dec_str(number) + " ("@ + display_spec(slot) + (if stocked_spec(slot, reading) {
        ") is stocked"@
    } else {
        ") is empty"@
    })
}

/// The legacy status report: one line per slot, in wiring order and
/// 1-indexed, naming the slot and whether it is stocked.
pub fn get_slots_old(config: &ConfigData, readings: &Vec<StockReading>) -> (r: Vec<String>)
    requires
        readings@.len() == config.slots@.len(),
    ensures
        r@.len() == config.slots@.len(),
        forall|i: int|
            0 <= i < r@.len() ==> (#[trigger] r@[i])@ == slot_line_spec(
                config.slots@[i],
                readings@[i],
                (i + 1) as nat,
            ),
{
    let mut r: Vec<String> = Vec::new();
    let mut i: usize = 0;
    while i < config.slots.len()
        invariant
            readings@.len() == config.slots@.len(),
            i <= config.slots@.len(),
            r@.len() == i,
            forall|j: int|
                0 <= j < i ==> (#[trigger] r@[j])@ == slot_line_spec(
                    config.slots@[j],
                    readings@[j],
                    (j + 1) as nat,
                ),
        decreases config.slots@.len() - i,
    {
        let slot = &config.slots[i];
        let mut line = "Slot ".to_owned();
        let num = u64_to_dec((i + 1) as u64);
        line.append(num.as_str());
        line.append(" (");
        let id = slot.display();
        line.append(id.as_str());
        if is_stocked(slot, &readings[i]) {
            line.append(") is stocked");
        } else {
            line.append(") is empty");
        }
        proof {
            assert(line@ =~= slot_line_spec(
                config.slots@[i as int],
                readings@[i as int],
                (i + 1) as nat,
            ));
        }
        r.push(line);
        i = i + 1;
    }
    r
}

/// The control file an actuation writes for an addressable slot.
pub fn pio_path(id: &str) -> (p: String)
    ensures
        p@ == "/mnt/w1/"@ + id@ + "/PIO"@,
{
    let mut p = "/mnt/w1/".to_owned();
    p.append(id);
    p.append("/PIO");
    p
}

/// The identity file whose presence means an addressable slot's device
/// is on the bus.
pub fn presence_path(id: &str) -> (p: String)
    ensures
        p@ == "/mnt/w1/"@ + id@ + "/id"@,
{
    let mut p = "/mnt/w1/".to_owned();
    p.append(id);
    p.append("/id");
    p
}

/// The value file read for the configured temperature sensor.
pub fn temperature_path(id: &str) -> (p: String)
    ensures
        p@ == "/mnt/w1/"@ + id@ + "/temperature12"@,
{
    let mut p = "/mnt/w1/".to_owned();
    p.append(id);
    p.append("/temperature12");
    p
}

/// Whether a temperature sensor is configured: an empty address
/// disables it, and status reporting then uses the neutral reading
/// without touching any device file.
pub fn temperature_enabled(config: &ConfigData) -> (b: bool)
    ensures
        b <==> config.temperature_id@.len() != 0,
{
    !config.temperature_id.as_str().is_empty()
}

/// The status code a drop outcome maps to at the reporting boundary:
/// success, a caller fault, or a hardware fault.
pub fn outcome_status(r: &Result<DropState, DropError>) -> (code: u16)
    ensures
        r is Ok <==> code == 200,
        *r == Err::<DropState, DropError>(DropError::BadSlot) <==> code == 400,
        *r == Err::<DropState, DropError>(DropError::MotorFailed) <==> code == 500,
{
    match r {
        Ok(_) => 200,
        Err(DropError::BadSlot) => 400,
        Err(DropError::MotorFailed) => 500,
    }
}

/// The message reported for a successful drop from a slot.
pub fn drop_message(slot: u64) -> (s: String)
    ensures
        s@ == "Dropped drink from slot "@ + dec_str(slot as nat),
{
    let mut s = "Dropped drink from slot ".to_owned();
    let n = u64_to_dec(slot);
    s.append(n.as_str());
    s
}

/// The error text reported for a failed drop.
pub fn error_message(e: &DropError) -> (s: String)
    ensures
        *e == DropError::BadSlot ==> s@ == "Invalid slot ID provided"@,
        *e == DropError::MotorFailed ==> s@ == "Motor failed to actuate"@,
{
    match e {
        DropError::BadSlot => "Invalid slot ID provided".to_owned(),
        DropError::MotorFailed => "Motor failed to actuate".to_owned(),
    }
}

} // verus!
