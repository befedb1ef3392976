//! The progress bar of the overlays: while a long task runs the bar pulses,
//! driven by a periodic timer; when the task ends the bar is filled and
//! emptied again shortly after, or emptied at once when it is aborted.
//!
//! The timer's handle is a type parameter: it is only kept and handed back,
//! so that the caller can remove the timer.
use vstd::prelude::*;

verus! {

/// How often the bar pulses while a task runs, in milliseconds.
pub const PULSE_INTERVAL_MS: u64 = 300;

/// How long a finished bar stays full before it is emptied, in
/// milliseconds.
pub const FINISH_TIMEOUT_MS: u64 = 300;

/// How far the bar is filled.
#[derive(Clone, Copy, Debug, PartialEq, Eq, Structural)]
pub enum BarFill {
    Empty,
    Full,
}

/// What to do when the pulsing stops.
#[derive(Debug)]
pub struct PulseStop<S> {
    /// The timer that drove the pulsing, to be removed.
    pub stale_timer: Option<S>,
    /// The fill to show at once.
    pub fill: BarFill,
    /// After how many milliseconds to empty the bar again, if at all.
    pub empty_after_ms: Option<u64>,
}

/// What a tick of the pulse timer does.
#[derive(Clone, Copy, Debug, PartialEq, Eq, Structural)]
pub enum PulseTick {
    /// Pulse the bar once and keep the timer.
    PulseAndContinue,
    /// The overlays are gone: remove the timer.
    Stop,
}

/// Keeps the timer that makes the progress bar pulse. At most one such
/// timer is kept: starting a new one hands back the old one for removal.
#[derive(Debug)]
pub struct ProgressPulse<S> {
    timer: Option<S>,
}

/// Starting to pulse while `kept` is the kept timer: the new timer is
/// kept, and the old one is handed back. Returns (kept after, handed back).
pub open spec fn start_step<S>(kept: Option<S>, timer: S) -> (Option<S>, Option<S>) {
    (Some(timer), kept)
}

/// Stopping the pulsing (finishing or aborting) while `kept` is the kept
/// timer: no timer is kept, and the old one is handed back. Returns (kept
/// after, handed back).
pub open spec fn stop_step<S>(kept: Option<S>) -> (Option<S>, Option<S>) {
    (None, kept)
}

impl<S> ProgressPulse<S> {
    /// The timer kept now, if the bar is pulsing.
    pub closed spec fn current(self) -> Option<S> {
        self.timer
    }

    /// A bar that is not pulsing.
    pub fn new() -> (res: Self)
        ensures
            res.current() is None,
    {
        ProgressPulse { timer: None }
    }

    /// Whether the bar is pulsing.
    pub fn is_pulsing(&self) -> (res: bool)
        ensures
            res == self.current() is Some,
    {
        self.timer.is_some()
    }

    /// Starts pulsing with the new `timer`, which ticks every
    /// `PULSE_INTERVAL_MS`. Returns the timer that pulsed before, if any,
    /// which the caller removes.
    pub fn start_pulsing(&mut self, timer: S) -> (stale: Option<S>)
        ensures
            (final(self).current(), stale) == start_step(old(self).current(), timer),
    {
        let stale = self.timer.take();
        self.timer = Some(timer);
        stale
    }

    /// Finishes the task: the pulse timer is handed back for removal, the
    /// bar is filled, and it is emptied again after `FINISH_TIMEOUT_MS`.
    pub fn finish(&mut self) -> (res: PulseStop<S>)
        ensures
            (final(self).current(), res.stale_timer) == stop_step(old(self).current()),
            res.fill == BarFill::Full,
            res.empty_after_ms == Some(FINISH_TIMEOUT_MS),
    {
        let stale = self.timer.take();
        PulseStop { stale_timer: stale, fill: BarFill::Full, empty_after_ms: Some(FINISH_TIMEOUT_MS) }
    }

    /// Aborts the task: the pulse timer is handed back for removal and the
    /// bar is emptied at once.
    pub fn abort(&mut self) -> (res: PulseStop<S>)
        ensures
            (final(self).current(), res.stale_timer) == stop_step(old(self).current()),
            res.fill == BarFill::Empty,
            res.empty_after_ms is None,
    {
        let stale = self.timer.take();
        PulseStop { stale_timer: stale, fill: BarFill::Empty, empty_after_ms: None }
    }
}

/// A tick of the pulse timer pulses the bar while the overlays exist, and
/// removes the timer once they are gone.
pub fn pulse_tick(overlays_alive: bool) -> (res: PulseTick)
    ensures
        res == (if overlays_alive {
            PulseTick::PulseAndContinue
        } else {
            PulseTick::Stop
        }),
{
    if overlays_alive {
        PulseTick::PulseAndContinue
    } else {
        PulseTick::Stop
    }
}

/// No timer is ever lost: starting twice hands the first timer back, and
/// stopping after a start hands back exactly the started timer and leaves
/// the bar idle; stopping an idle bar hands back nothing.
pub proof fn lemma_pulse_timers_never_leak<S>(kept: Option<S>, first: S, second: S)
    ensures
        start_step(start_step(kept, first).0, second) == (Some(second), Some(first)),
        stop_step(start_step(kept, first).0) == (None::<S>, Some(first)),
        stop_step(None::<S>) == (None::<S>, None::<S>),
        stop_step(stop_step(kept).0) == (None::<S>, None::<S>),
{
}

} // verus!
