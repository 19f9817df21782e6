use vstd::prelude::*;

verus! {

/// Seconds without any open connection after which the server shuts itself down.
pub const IDLE_SECS: u64 = 300;

/// Seconds between two samples of the connection count.
pub const CHECK_INTERVAL_SECS: u64 = 30;

/// Seconds that in-flight requests are given to finish after a termination signal.
pub const GRACE_SECS: u64 = 3;

/// Where the server is in its life. Transitions only go forward.
#[derive(Clone, Copy, Debug, PartialEq, Eq, Structural)]
pub enum Phase {
    Running,
    Draining,
    Stopped,
}

/// The operating-system signals that ask the process to end.
#[derive(Clone, Copy, Debug, PartialEq, Eq, Structural)]
pub enum SignalKind {
    /// An interactive interrupt (Ctrl+C).
    Interrupt,
    /// A termination request.
    Terminate,
}

/// What the transport reports to the controller.
#[derive(Clone, Copy, Debug, PartialEq, Eq, Structural)]
pub enum Event {
    /// The listener is bound and accepting.
    Bound,
    /// A periodic sample: seconds since start, and the number of open connections.
    Tick { now: u64, connections: usize },
    /// A termination signal arrived.
    Signal(SignalKind),
    /// The serving task has ended.
    ServerEnded,
}

/// What the controller asks the transport to do.
#[derive(Clone, Copy, Debug, PartialEq, Eq, Structural)]
pub enum Action {
    Nothing,
    /// Tell the process supervisor that the service is ready.
    NotifyReady,
    /// Stop accepting, give in-flight requests `grace_secs` seconds, then close them.
    GracefulShutdown { grace_secs: u64 },
    /// Stop at once: there is nothing to drain.
    Shutdown,
    /// Tell in-process helpers to rotate their state and, if `notify_supervisor`,
    /// tell the supervisor that the service is stopping.
    Finish { notify_supervisor: bool },
}

/// The lifecycle controller's state.
#[derive(Clone, Copy, Debug, PartialEq, Eq, Structural)]
pub struct Lifecycle {
    pub phase: Phase,
    /// Seconds since start at which a connection was last seen open.
    pub last_activity: u64,
    /// Whether a process supervisor takes readiness notifications.
    pub notify_supervisor: bool,
}

/// Seconds that have passed since the last activity, at time `now`.
pub open spec fn idle_for(s: Lifecycle, now: u64) -> int {
    if now >= s.last_activity {
        now - s.last_activity
    } else {
        0
    }
}

/// Whether an action ends the serving.
pub open spec fn is_shutdown(a: Action) -> bool {
    a is GracefulShutdown || a is Shutdown
}

/// The order of the phases.
pub open spec fn rank(p: Phase) -> int {
    match p {
        Phase::Running => 0,
        Phase::Draining => 1,
        Phase::Stopped => 2,
    }
}

/// The controller's transition: the next state and the action for event `ev` in state `s`.
pub open spec fn next(s: Lifecycle, ev: Event) -> (Lifecycle, Action) {
    match ev {
        Event::Bound => {
            if s.phase is Running && s.notify_supervisor {
                (s, Action::NotifyReady)
            } else {
                (s, Action::Nothing)
            }
        },
        Event::Tick { now, connections } => {
            if !(s.phase is Running) {
                (s, Action::Nothing)
            } else if connections > 0 {
                (Lifecycle { last_activity: now, ..s }, Action::Nothing)
            } else if idle_for(s, now) > IDLE_SECS {
                (Lifecycle { phase: Phase::Draining, ..s }, Action::Shutdown)
            } else {
                (s, Action::Nothing)
            }
        },
        Event::Signal(_) => {
            if s.phase is Running {
                (
                    Lifecycle { phase: Phase::Draining, ..s },
                    Action::GracefulShutdown { grace_secs: GRACE_SECS },
                )
            } else {
                (s, Action::Nothing)
            }
        },
        Event::ServerEnded => {
            if s.phase is Stopped {
                (s, Action::Nothing)
            } else {
                (
                    Lifecycle { phase: Phase::Stopped, ..s },
                    Action::Finish { notify_supervisor: s.notify_supervisor },
                )
            }
        },
    }
}

/// The states and actions of a run of events from state `s`.
pub open spec fn run(s: Lifecycle, evs: Seq<Event>) -> (Lifecycle, Seq<Action>)
    decreases evs.len(),
{
    if evs.len() == 0 {
        (s, Seq::empty())
    } else {
        let (t, a) = next(s, evs[0]);
        let (u, rest) = run(t, evs.drop_first());
        (u, seq![a] + rest)
    }
}

/// How many actions of a sequence end the serving.
pub open spec fn shutdown_count(acts: Seq<Action>) -> nat
    decreases acts.len(),
{
    if acts.len() == 0 {
        0
    } else {
        (if is_shutdown(acts[0]) {
            1nat
        } else {
            0nat
        }) + shutdown_count(acts.drop_first())
    }
}

impl Lifecycle {
    /// A running controller that started at `start` seconds.
    pub fn new(start: u64, notify_supervisor: bool) -> (r: Lifecycle)
        ensures
            r.phase == Phase::Running,
            r.last_activity == start,
            r.notify_supervisor == notify_supervisor,
    {
        Lifecycle { phase: Phase::Running, last_activity: start, notify_supervisor }
    }

    /// Handles one event: moves to the next state and returns what the transport is to do.
    pub fn step(&mut self, ev: Event) -> (r: Action)
        ensures
            (*final(self), r) == next(*old(self), ev),
            rank(final(self).phase) >= rank(old(self).phase),
    {
        match ev {
            Event::Bound => {
                if self.phase == Phase::Running && self.notify_supervisor {
                    Action::NotifyReady
                } else {
                    Action::Nothing
                }
            },
            Event::Tick { now, connections } => {
                if self.phase != Phase::Running {
                    Action::Nothing
                } else if connections > 0 {
                    self.last_activity = now;
                    Action::Nothing
                } else {
                    let idle: u64 = if now >= self.last_activity {
                        now - self.last_activity
                    } else {
                        0
                    };
                    if idle > IDLE_SECS {
                        self.phase = Phase::Draining;
                        Action::Shutdown
                    } else {
                        Action::Nothing
                    }
                }
            },
            Event::Signal(_) => {
                if self.phase == Phase::Running {
                    self.phase = Phase::Draining;
                    Action::GracefulShutdown { grace_secs: GRACE_SECS }
                } else {
                    Action::Nothing
                }
            },
            Event::ServerEnded => {
                if self.phase == Phase::Stopped {
                    Action::Nothing
                } else {
                    self.phase = Phase::Stopped;
                    Action::Finish { notify_supervisor: self.notify_supervisor }
                }
            },
        }
    }
}

/// Idle shutdown: a running server that samples zero open connections once it has
/// been idle longer than the threshold shuts down at once, without a drain.
pub proof fn lemma_idle_shutdown_fires(s: Lifecycle, now: u64)
    requires
        s.phase is Running,
        idle_for(s, now) > IDLE_SECS,
    ensures
        next(s, Event::Tick { now, connections: 0 }).1 == Action::Shutdown,
        next(s, Event::Tick { now, connections: 0 }).0.phase == Phase::Draining,
{
}

/// Activity resets the idle timer: a sample that sees an open connection records the
/// time and ends nothing, and no later sample within the threshold of it shuts down.
pub proof fn lemma_activity_resets(s: Lifecycle, now: u64, connections: usize, later: u64, c2: usize)
    requires
        s.phase is Running,
        connections > 0,
        now <= later,
        later - now <= IDLE_SECS,
    ensures
        next(s, Event::Tick { now, connections }).1 == Action::Nothing,
        next(s, Event::Tick { now, connections }).0.phase == Phase::Running,
        next(s, Event::Tick { now, connections }).0.last_activity == now,
        !is_shutdown(next(next(s, Event::Tick { now, connections }).0, Event::Tick { now: later, connections: c2 }).1),
{
}

/// Once the server has left the running phase, no event ends the serving again.
pub proof fn lemma_no_shutdown_after_running(s: Lifecycle, evs: Seq<Event>)
    requires
        !(s.phase is Running),
    ensures
        shutdown_count(run(s, evs).1) == 0,
        !(run(s, evs).0.phase is Running),
    decreases evs.len(),
{
    if evs.len() > 0 {
        let (t, a) = next(s, evs[0]);
        lemma_no_shutdown_after_running(t, evs.drop_first());
        let (u, rest) = run(t, evs.drop_first());
        assert((seq![a] + rest).drop_first() =~= rest);
    }
}

/// Shutdown happens at most once: over any run of events, whether signals, idle
/// samples or both, whichever ends the serving first wins and the others do nothing.
pub proof fn lemma_shutdown_at_most_once(s: Lifecycle, evs: Seq<Event>)
    ensures
        shutdown_count(run(s, evs).1) <= 1,
        !(s.phase is Running) ==> shutdown_count(run(s, evs).1) == 0,
    decreases evs.len(),
{
    if evs.len() > 0 {
        let (t, a) = next(s, evs[0]);
        let (u, rest) = run(t, evs.drop_first());
        assert((seq![a] + rest).drop_first() =~= rest);
        assert((seq![a] + rest)[0] == a);
        if is_shutdown(a) {
            lemma_no_shutdown_after_running(t, evs.drop_first());
        } else {
            lemma_shutdown_at_most_once(t, evs.drop_first());
        }
        if !(s.phase is Running) {
            lemma_no_shutdown_after_running(s, evs);
        }
    }
}

/// A termination signal to a running server starts a graceful drain with the fixed
/// grace period.
pub proof fn lemma_signal_drains(s: Lifecycle, k: SignalKind)
    requires
        s.phase is Running,
    ensures
        next(s, Event::Signal(k)).1 == (Action::GracefulShutdown { grace_secs: GRACE_SECS }),
        next(s, Event::Signal(k)).0.phase == Phase::Draining,
{
}

} // verus!
