//! The shared unlock latch: deadline scheduling for the background worker
//! that holds the latch line open, coalescing overlapping requests.

use vstd::prelude::*;

verus! {

/// How long one request keeps the latch open at most, in milliseconds.
/// Every scheduled deadline is capped this far in the future, bounding the
/// worst-case open window whatever the caller does.
pub const LATCH_WINDOW_MS: u64 = 60000;

/// The shared unlock latch, identified by the GPIO line offset that the
/// background worker owns exclusively.
pub struct Latch {
    pub line: u32,
}

impl Latch {
    /// The deadline that one open request schedules: the present instant
    /// plus the safety window, saturating at the clock's maximum.
    pub open spec fn open_deadline(now_ms: u64) -> u64 {
        if now_ms + LATCH_WINDOW_MS <= u64::MAX {
            (now_ms + LATCH_WINDOW_MS) as u64
        } else {
            u64::MAX
        }
    }

    /// Requests the latch to open: returns the deadline, capped at
    /// `LATCH_WINDOW_MS` past `now_ms`, that the caller sends to the
    /// background worker.
    pub fn open(&self, now_ms: u64) -> (deadline: u64)
        ensures
            deadline == Latch::open_deadline(now_ms),
    {
        if now_ms <= u64::MAX - LATCH_WINDOW_MS {
            now_ms + LATCH_WINDOW_MS
        } else {
            u64::MAX
        }
    }
}

/// Where the background worker stands: waiting for a first deadline, or
/// holding the line open until a deadline.
#[derive(Clone, Copy, Debug, PartialEq, Eq, Structural)]
pub enum LatchPhase {
    Waiting,
    Holding { until: u64 },
}

/// What the worker observed: a blocking receive returned a deadline, or
/// — after the current hold elapsed — a non-blocking drain found one
/// more pending deadline, or none. Each observation carries the clock
/// reading at that moment.
#[derive(Clone, Copy, Debug, PartialEq, Eq, Structural)]
pub enum LatchEvent {
    Message { deadline: u64, now: u64 },
    Drained { pending: Option<u64>, now: u64 },
}

/// What the worker must do next with the line it owns.
#[derive(Clone, Copy, Debug, PartialEq, Eq, Structural)]
pub enum LatchAction {
    /// The observation changed nothing: keep waiting or keep draining.
    KeepWaiting,
    /// Set the line to 1 and sleep until the deadline.
    OpenAndHold { until: u64 },
    /// The line is already open: sleep until the later deadline.
    HoldUntil { until: u64 },
    /// No pending deadline remains: set the line to 0 and go back to
    /// waiting.
    CloseLine,
}

/// The single background worker that owns the latch line, as a state
/// machine over deadline messages and clock readings.
#[derive(Clone, Copy, Debug, PartialEq, Eq, Structural)]
pub struct LatchWorker {
    pub phase: LatchPhase,
}

/// The transition relation of the latch worker. A deadline already in
/// the past is discarded. A first live deadline opens the line; every
/// further live deadline found while holding only extends the hold, so
/// overlapping requests coalesce into one open interval; the line
/// closes once no pending deadline remains.
pub open spec fn latch_step(pre: LatchWorker, ev: LatchEvent) -> (LatchWorker, LatchAction) {
    match (pre.phase, ev) {
        (LatchPhase::Waiting, LatchEvent::Message { deadline, now }) => {
            if now > deadline {
                (pre, LatchAction::KeepWaiting)
            } else {
                (
                    LatchWorker { phase: LatchPhase::Holding { until: deadline } },
                    LatchAction::OpenAndHold { until: deadline },
                )
            }
        },
        (LatchPhase::Holding { until }, LatchEvent::Drained { pending, now }) => {
            match pending {
                Some(deadline) => {
                    if now > deadline {
                        (pre, LatchAction::KeepWaiting)
                    } else {
                        (
                            LatchWorker { phase: LatchPhase::Holding { until: deadline } },
                            LatchAction::HoldUntil { until: deadline },
                        )
                    }
                },
                None => (LatchWorker { phase: LatchPhase::Waiting }, LatchAction::CloseLine),
            }
        },
        _ => (pre, LatchAction::KeepWaiting),
    }
}

impl LatchWorker {
    /// A worker that has not yet been asked anything.
    pub fn new() -> (w: LatchWorker)
        ensures
            w.phase == LatchPhase::Waiting,
    {
        LatchWorker { phase: LatchPhase::Waiting }
    }

    /// Advances the worker by one observation and returns what to do
    /// with the line.
    pub fn step(&mut self, ev: LatchEvent) -> (act: LatchAction)
        ensures
            (*final(self), act) == latch_step(*old(self), ev),
    {
        match (self.phase, ev) {
            (LatchPhase::Waiting, LatchEvent::Message { deadline, now }) => {
                if now > deadline {
                    LatchAction::KeepWaiting
                } else {
                    self.phase = LatchPhase::Holding { until: deadline };
                    LatchAction::OpenAndHold { until: deadline }
                }
            },
            (LatchPhase::Holding { until: _ }, LatchEvent::Drained { pending, now }) => {
                match pending {
                    Some(deadline) => {
                        if now > deadline {
                            LatchAction::KeepWaiting
                        } else {
                            self.phase = LatchPhase::Holding { until: deadline };
                            LatchAction::HoldUntil { until: deadline }
                        }
                    },
                    None => {
                        self.phase = LatchPhase::Waiting;
                        LatchAction::CloseLine
                    },
                }
            },
            _ => LatchAction::KeepWaiting,
        }
    }
}

/// The actions the worker takes over a sequence of observations.
pub open spec fn latch_trace(w: LatchWorker, evs: Seq<LatchEvent>) -> Seq<LatchAction>
    decreases evs.len(),
{
    if evs.len() == 0 {
        Seq::empty()
    } else {
        seq![latch_step(w, evs[0]).1] + latch_trace(latch_step(w, evs[0]).0, evs.drop_first())
    }
}

/// Two open requests issued before the worker wakes coalesce into a
/// single open interval: the worker opens the line once, for the first
/// deadline; on waking it finds the second, later deadline and only
/// extends the hold; and the close comes after holding until that later
/// of the two deadlines — the line is never closed and reopened in
/// between.
pub proof fn lemma_latch_coalesce(d1: u64, d2: u64, now1: u64, now2: u64, now3: u64)
    requires
        now1 <= d1,
        now2 <= d2,
        d1 <= d2,
    ensures
        latch_trace(
            LatchWorker { phase: LatchPhase::Waiting },
            seq![
                LatchEvent::Message { deadline: d1, now: now1 },
                LatchEvent::Drained { pending: Some(d2), now: now2 },
                LatchEvent::Drained { pending: None, now: now3 },
            ],
        ) =~= seq![
            LatchAction::OpenAndHold { until: d1 },
            LatchAction::HoldUntil { until: d2 },
            LatchAction::CloseLine,
        ],
{
    reveal_with_fuel(latch_trace, 4);
}

} // verus!
