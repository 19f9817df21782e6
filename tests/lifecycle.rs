use conduit_serve::lifecycle::{Action, Event, Lifecycle, Phase, SignalKind, GRACE_SECS, IDLE_SECS};

fn tick(now: u64, connections: usize) -> Event {
    Event::Tick { now, connections }
}

#[test]
fn idle_server_shuts_down_once() {
    let mut s = Lifecycle::new(0, false);
    assert_eq!(s.step(tick(30, 0)), Action::Nothing);
    assert_eq!(s.step(tick(300, 0)), Action::Nothing);
    assert_eq!(s.step(tick(301, 0)), Action::Shutdown);
    assert_eq!(s.phase, Phase::Draining);
    assert_eq!(s.step(tick(331, 0)), Action::Nothing);
    assert_eq!(s.step(Event::Signal(SignalKind::Terminate)), Action::Nothing);
    assert_eq!(
        s.step(Event::ServerEnded),
        Action::Finish { notify_supervisor: false }
    );
    assert_eq!(s.phase, Phase::Stopped);
    assert_eq!(s.step(Event::ServerEnded), Action::Nothing);
}

#[test]
fn open_connection_resets_idle_timer() {
    let mut s = Lifecycle::new(0, false);
    assert_eq!(s.step(tick(290, 1)), Action::Nothing);
    assert_eq!(s.last_activity, 290);
    assert_eq!(s.step(tick(320, 0)), Action::Nothing);
    assert_eq!(s.step(tick(290 + IDLE_SECS, 0)), Action::Nothing);
    assert_eq!(s.step(tick(291 + IDLE_SECS, 0)), Action::Shutdown);
}

#[test]
fn signal_starts_graceful_drain() {
    let mut s = Lifecycle::new(0, true);
    assert_eq!(s.step(Event::Bound), Action::NotifyReady);
    assert_eq!(
        s.step(Event::Signal(SignalKind::Interrupt)),
        Action::GracefulShutdown { grace_secs: GRACE_SECS }
    );
    assert_eq!(GRACE_SECS, 3);
    assert_eq!(s.step(tick(1000, 0)), Action::Nothing);
    assert_eq!(
        s.step(Event::ServerEnded),
        Action::Finish { notify_supervisor: true }
    );
}

#[test]
fn no_ready_notification_without_supervisor() {
    let mut s = Lifecycle::new(5, false);
    assert_eq!(s.step(Event::Bound), Action::Nothing);
    assert_eq!(s.phase, Phase::Running);
}
