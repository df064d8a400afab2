//! The result of probing an HTTP endpoint, and waiting for an endpoint to
//! answer: until the deadline, probe, and sleep between probes.
use vstd::prelude::*;
use crate::config::clone_opt_string;

verus! {

/// What one HTTP GET of an endpoint gave.
pub struct ProbeResult {
    pub reachable: bool,
    pub status: Option<u16>,
    pub error: Option<String>,
}

pub struct ProbeView {
    pub reachable: bool,
    pub status: Option<u16>,
    pub error: Option<Seq<char>>,
}

impl View for ProbeResult {
    type V = ProbeView;

    open spec fn view(&self) -> ProbeView {
        ProbeView { reachable: self.reachable, status: self.status, error: self.error.deep_view() }
    }
}

impl Clone for ProbeResult {
    fn clone(&self) -> (r: Self)
        ensures
            r@ == self@,
    {
        ProbeResult {
            reachable: self.reachable,
            status: self.status,
            error: clone_opt_string(&self.error),
        }
    }
}

impl ProbeResult {
    /// The endpoint answered with `status`: it counts as reachable unless
    /// that is a server error (500 and above).
    pub fn from_status(status: u16) -> (p: Self)
        ensures
            p@ == (ProbeView { reachable: status < 500, status: Some(status), error: None }),
    {
        ProbeResult { reachable: status < 500, status: Some(status), error: None }
    }

    /// The request failed before any answer came, for the reason given.
    pub fn from_error(message: String) -> (p: Self)
        ensures
            p@ == (ProbeView { reachable: false, status: None, error: Some(message@) }),
    {
        ProbeResult { reachable: false, status: None, error: Some(message) }
    }
}

/// Where a wait for an endpoint stands.
#[derive(Debug, Clone, Copy, PartialEq, Eq, Structural)]
pub enum WaitStage {
    CheckingClock,
    Probing,
    Sleeping,
    Reached,
    TimedOut,
}

/// The outside work a wait asks for next.
#[derive(Debug, Clone, Copy, PartialEq, Eq, Structural)]
pub enum WaitAction {
    /// Tell whether the deadline is still ahead.
    ReadClock,
    /// Probe the endpoint once.
    Probe,
    /// Sleep this many seconds.
    Sleep(u64),
    /// The wait is over: whether the endpoint answered in time.
    Done(bool),
}

/// What the outside work gave.
#[derive(Debug, Clone, Copy, PartialEq, Eq, Structural)]
pub enum WaitEvent {
    /// Whether the deadline is still ahead.
    Clock(bool),
    /// Whether the probe found the endpoint reachable.
    Probed(bool),
    Slept,
}

/// A wait for an endpoint, probing every `interval_secs` seconds.
#[derive(Debug, Clone, Copy, PartialEq, Eq, Structural)]
pub struct ReachWait {
    pub stage: WaitStage,
    pub interval_secs: u64,
}

pub open spec fn wait_action(w: ReachWait) -> WaitAction {
    match w.stage {
        WaitStage::CheckingClock => WaitAction::ReadClock,
        WaitStage::Probing => WaitAction::Probe,
        WaitStage::Sleeping => WaitAction::Sleep(w.interval_secs),
        WaitStage::Reached => WaitAction::Done(true),
        WaitStage::TimedOut => WaitAction::Done(false),
    }
}

/// The wait after `event`: past the deadline it has timed out; a reachable
/// probe ends it; an unreachable one is followed by a sleep and another
/// look at the clock. An event that answers no asked-for work changes
/// nothing.
pub open spec fn wait_next(w: ReachWait, event: WaitEvent) -> ReachWait {
    let stage = match (w.stage, event) {
        (WaitStage::CheckingClock, WaitEvent::Clock(ahead)) => if ahead {
            WaitStage::Probing
        } else {
            WaitStage::TimedOut
        },
        (WaitStage::Probing, WaitEvent::Probed(reachable)) => if reachable {
            WaitStage::Reached
        } else {
            WaitStage::Sleeping
        },
        (WaitStage::Sleeping, WaitEvent::Slept) => WaitStage::CheckingClock,
        _ => w.stage,
    };
    ReachWait { stage, ..w }
}

impl ReachWait {
    /// A wait that starts by looking at the clock.
    pub fn new(interval_secs: u64) -> (w: Self)
        ensures
            w == (ReachWait { stage: WaitStage::CheckingClock, interval_secs }),
    {
        ReachWait { stage: WaitStage::CheckingClock, interval_secs }
    }

    pub fn next_action(&self) -> (a: WaitAction)
        ensures
            a == wait_action(*self),
    {
        match self.stage {
            WaitStage::CheckingClock => WaitAction::ReadClock,
            WaitStage::Probing => WaitAction::Probe,
            WaitStage::Sleeping => WaitAction::Sleep(self.interval_secs),
            WaitStage::Reached => WaitAction::Done(true),
            WaitStage::TimedOut => WaitAction::Done(false),
        }
    }

    pub fn step(&mut self, event: WaitEvent)
        ensures
            *final(self) == wait_next(*old(self), event),
    {
        match (self.stage, event) {
            (WaitStage::CheckingClock, WaitEvent::Clock(ahead)) => {
                self.stage = if ahead {
                    WaitStage::Probing
                } else {
                    WaitStage::TimedOut
                };
            },
            (WaitStage::Probing, WaitEvent::Probed(reachable)) => {
                self.stage = if reachable {
                    WaitStage::Reached
                } else {
                    WaitStage::Sleeping
                };
            },
            (WaitStage::Sleeping, WaitEvent::Slept) => {
                self.stage = WaitStage::CheckingClock;
            },
            _ => {},
        }
    }
}

/// A wait reports the endpoint reachable only right after a probe found it
/// so, and gives up only when the clock says the deadline has passed; once
/// it is over, nothing changes it.
pub proof fn lemma_wait_ends_on_evidence(w: ReachWait, event: WaitEvent)
    ensures
        w.stage != WaitStage::Reached && wait_next(w, event).stage == WaitStage::Reached ==> w.stage
            == WaitStage::Probing && event == WaitEvent::Probed(true),
        w.stage != WaitStage::TimedOut && wait_next(w, event).stage == WaitStage::TimedOut ==> w.stage
            == WaitStage::CheckingClock && event == WaitEvent::Clock(false),
        (w.stage == WaitStage::Reached || w.stage == WaitStage::TimedOut) ==> wait_next(w, event)
            == w,
{
}

} // verus!
