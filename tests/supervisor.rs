use felay_gui::codec::Exchange;
use felay_gui::endpoint::Platform;
use felay_gui::json::Json;
use felay_gui::supervisor::{
    find_daemon_exe, status_tick, Action, Event, ExeLocation, Finish, Phase, Supervisor, TrayStatus, MAX_POLLS,
};

fn spawned_and_polling() -> Supervisor {
    let mut s = Supervisor::new(true);
    s.step(Event::Probed(false));
    assert_eq!(s.next_action(), Action::Locate);
    s.step(Event::Located(true));
    assert_eq!(s.next_action(), Action::Spawn);
    s.step(Event::SpawnDone(true));
    s
}

#[test]
fn running_daemon_is_left_alone() {
    let mut s = Supervisor::new(true);
    assert_eq!(s.next_action(), Action::Probe);
    s.step(Event::Probed(true));
    assert_eq!(s.next_action(), Action::Finished(Finish::AlreadyRunning));
}

#[test]
fn ready_on_fourth_poll() {
    let mut s = spawned_and_polling();
    let mut probes = 0;
    for answer in [false, false, false, true] {
        assert_eq!(s.next_action(), Action::WaitThenProbe);
        probes += 1;
        s.step(Event::Probed(answer));
    }
    assert_eq!(s.next_action(), Action::Finished(Finish::Ready));
    assert!(probes <= MAX_POLLS);
}

#[test]
fn gives_up_after_exactly_the_budget() {
    let mut s = spawned_and_polling();
    let mut probes = 0u32;
    while s.next_action() == Action::WaitThenProbe {
        probes += 1;
        s.step(Event::Probed(false));
    }
    assert_eq!(probes, 20);
    assert_eq!(s.phase, Phase::Done(Finish::GaveUp));
}

#[test]
fn failures_before_polling_end_the_attempt() {
    let mut s = Supervisor::new(true);
    s.step(Event::Probed(false));
    s.step(Event::Located(false));
    assert_eq!(s.next_action(), Action::Finished(Finish::NotFound));
    let mut s = Supervisor::new(true);
    s.step(Event::Probed(false));
    s.step(Event::Located(true));
    s.step(Event::SpawnDone(false));
    assert_eq!(s.next_action(), Action::Finished(Finish::SpawnFailed));
}

#[test]
fn explicit_start_does_not_wait() {
    let mut s = Supervisor::new(false);
    s.step(Event::Probed(false));
    s.step(Event::Located(true));
    s.step(Event::SpawnDone(true));
    assert_eq!(s.next_action(), Action::Finished(Finish::Spawned));
}

#[test]
fn unexpected_event_changes_nothing() {
    let mut s = Supervisor::new(true);
    s.step(Event::SpawnDone(true));
    assert_eq!(s.phase, Phase::Probing);
}

#[test]
fn tick_reports_session_count() {
    let payload = Json::Object(vec![
        ("daemonPid".to_string(), Json::Int(5)),
        ("activeSessions".to_string(), Json::Int(3)),
        ("sessions".to_string(), Json::Array(vec![])),
    ]);
    let reply = Json::Object(vec![("payload".to_string(), payload)]);
    assert_eq!(status_tick(&Exchange::Reply(reply)), TrayStatus { running: true, active_sessions: 3 });
    assert_eq!(status_tick(&Exchange::Unreachable), TrayStatus { running: false, active_sessions: 0 });
    assert_eq!(status_tick(&Exchange::NoEndpoint), TrayStatus { running: false, active_sessions: 0 });
}

#[test]
fn executable_lookup_order() {
    assert_eq!(find_daemon_exe(Platform::Unix, true, true), Ok(ExeLocation::BesideHost));
    assert_eq!(find_daemon_exe(Platform::Unix, false, true), Ok(ExeLocation::Bundled));
    assert_eq!(find_daemon_exe(Platform::Unix, false, false), Err("daemon not found: felay-daemon".to_string()));
    assert_eq!(
        find_daemon_exe(Platform::Windows, false, false),
        Err("daemon not found: felay-daemon.exe".to_string())
    );
}
