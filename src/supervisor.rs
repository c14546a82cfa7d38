use vstd::prelude::*;

verus! {

/// How long the launcher keeps the proxy running.
#[derive(Debug, Clone, Copy, PartialEq, Eq)]
pub enum Mode {
    /// Wait for the proxy to exit and pass its exit code on.
    RunToCompletion,
    /// Wait for an interrupt, then kill the proxy.
    UntilCancelled,
}

/// Where the supervisor stands.
#[derive(Debug, Clone, Copy, PartialEq, Eq)]
pub enum Phase {
    Starting,
    Grace,
    Refreshing,
    Listening,
    Waiting,
    Stopping,
    Done,
}

/// What happened outside.
#[derive(Debug, Clone, Copy, PartialEq, Eq)]
pub enum Event {
    /// The proxy was started.
    Spawned,
    /// The grace period before the server-file refresh is over.
    GraceElapsed,
    /// The server file was refreshed.
    Refreshed,
    /// The user sent an interrupt.
    Interrupted,
    /// The proxy exited on its own, with this code.
    ChildExited(i32),
    /// The proxy was killed.
    Killed,
}

/// What the launcher does next.
#[derive(Debug, Clone, Copy, PartialEq, Eq)]
pub enum Action {
    WaitGrace,
    Refresh,
    WaitInterrupt,
    WaitChild,
    Kill,
    Exit(i32),
    Nothing,
}

/// The supervisor of one run of the proxy.
#[derive(Debug, Clone, Copy, PartialEq, Eq)]
pub struct Supervisor {
    pub mode: Mode,
    /// Whether the server file is refreshed after a grace period.
    pub refresh_after_start: bool,
    pub phase: Phase,
    /// An interrupt arrived before the supervisor listened for one.
    pub interrupted: bool,
    /// How many times the proxy was told to die.
    pub kills: u8,
}

impl Supervisor {
    /// The supervisor is consistent: the proxy is told to die at most once,
    /// and only a stopping or finished run has done so.
    pub open spec fn wf(&self) -> bool {
        &&& self.kills <= 1
        &&& self.phase == Phase::Stopping ==> self.kills == 1
        &&& (self.phase != Phase::Stopping && self.phase != Phase::Done) ==> self.kills == 0
    }

    /// The next state and the action for an event.
    pub open spec fn next(self, e: Event) -> (Supervisor, Action) {
        let s = self;
        match (s.phase, e) {
            (Phase::Starting, Event::Spawned) => match s.mode {
                Mode::RunToCompletion => (Supervisor { phase: Phase::Waiting, ..s }, Action::WaitChild),
                Mode::UntilCancelled => if s.refresh_after_start {
                    (Supervisor { phase: Phase::Grace, ..s }, Action::WaitGrace)
                } else {
                    (Supervisor { phase: Phase::Listening, ..s }, Action::WaitInterrupt)
                },
            },
            (Phase::Grace, Event::GraceElapsed) => (
                Supervisor { phase: Phase::Refreshing, ..s },
                Action::Refresh,
            ),
            (Phase::Grace, Event::Interrupted) => (Supervisor { interrupted: true, ..s }, Action::Nothing),
            (Phase::Refreshing, Event::Interrupted) => (
                Supervisor { interrupted: true, ..s },
                Action::Nothing,
            ),
            (Phase::Refreshing, Event::Refreshed) => if s.interrupted {
                (Supervisor { phase: Phase::Stopping, kills: 1, ..s }, Action::Kill)
            } else {
                (Supervisor { phase: Phase::Listening, ..s }, Action::WaitInterrupt)
            },
            (Phase::Listening, Event::Interrupted) => (
                Supervisor { phase: Phase::Stopping, interrupted: true, kills: 1, ..s },
                Action::Kill,
            ),
            (Phase::Waiting, Event::ChildExited(c)) => (Supervisor { phase: Phase::Done, ..s }, Action::Exit(c)),
            (Phase::Stopping, Event::Killed) => (Supervisor { phase: Phase::Done, ..s }, Action::Exit(0)),
            _ => (s, Action::Nothing),
        }
    }

    /// A supervisor for a proxy that is about to start.
    pub fn new(mode: Mode, refresh_after_start: bool) -> (r: Supervisor)
        ensures
            r.wf(),
            r.mode == mode,
            r.refresh_after_start == refresh_after_start,
            r.phase == Phase::Starting,
            !r.interrupted,
            r.kills == 0,
    {
        Supervisor { mode, refresh_after_start, phase: Phase::Starting, interrupted: false, kills: 0 }
    }

    /// Takes one event and says what to do next.
    pub fn step(&mut self, e: Event) -> (r: Action)
        requires
            old(self).wf(),
        ensures
            (*final(self), r) == old(self).next(e),
            final(self).wf(),
    {
        let s = *self;
        let (n, a) = match (s.phase, e) {
            (Phase::Starting, Event::Spawned) => match s.mode {
                Mode::RunToCompletion => (Supervisor { phase: Phase::Waiting, ..s }, Action::WaitChild),
                Mode::UntilCancelled => if s.refresh_after_start {
                    (Supervisor { phase: Phase::Grace, ..s }, Action::WaitGrace)
                } else {
                    (Supervisor { phase: Phase::Listening, ..s }, Action::WaitInterrupt)
                },
            },
            (Phase::Grace, Event::GraceElapsed) => (
                Supervisor { phase: Phase::Refreshing, ..s },
                Action::Refresh,
            ),
            (Phase::Grace, Event::Interrupted) => (Supervisor { interrupted: true, ..s }, Action::Nothing),
            (Phase::Refreshing, Event::Interrupted) => (
                Supervisor { interrupted: true, ..s },
                Action::Nothing,
            ),
            (Phase::Refreshing, Event::Refreshed) => if s.interrupted {
                (Supervisor { phase: Phase::Stopping, kills: 1, ..s }, Action::Kill)
            } else {
                (Supervisor { phase: Phase::Listening, ..s }, Action::WaitInterrupt)
            },
            (Phase::Listening, Event::Interrupted) => (
                Supervisor { phase: Phase::Stopping, interrupted: true, kills: 1, ..s },
                Action::Kill,
            ),
            (Phase::Waiting, Event::ChildExited(c)) => (Supervisor { phase: Phase::Done, ..s }, Action::Exit(c)),
            (Phase::Stopping, Event::Killed) => (Supervisor { phase: Phase::Done, ..s }, Action::Exit(0)),
            _ => (s, Action::Nothing),
        };
        *self = n;
        a
    }
}

/// The proxy is told to die at most once: from a consistent state, a kill
/// is only ever asked for when none was asked for before, and every step
/// keeps the state consistent.
pub proof fn lemma_kill_at_most_once(s: Supervisor, e: Event)
    requires
        s.wf(),
    ensures
        s.next(e).0.wf(),
        s.next(e).1 == Action::Kill ==> s.kills == 0 && s.next(e).0.kills == 1,
        s.kills == 1 ==> s.next(e).1 != Action::Kill,
{
}

} // verus!
