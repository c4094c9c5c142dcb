use vstd::prelude::*;
use vstd::string::StringExecFns;

use crate::codec::{reply_of, request_daemon_status, running_spec, Exchange};
use crate::endpoint::Platform;
use crate::json::{as_i64, field};

verus! {

/// Liveness probes after a spawn, at most.
pub const MAX_POLLS: u32 = 20;

/// Pause before each liveness probe after a spawn, in milliseconds.
pub const POLL_INTERVAL_MS: u64 = 300;

/// Period of the status synchronizer, in seconds.
pub const STATUS_INTERVAL_SECS: u64 = 5;

/// How a start attempt ended.
#[derive(Clone, Copy, Debug, PartialEq, Eq, Structural)]
pub enum Finish {
    /// The first probe found the daemon running; nothing was spawned.
    AlreadyRunning,
    /// No daemon executable was found.
    NotFound,
    /// The executable was found but could not be spawned.
    SpawnFailed,
    /// Spawned, and not waited for.
    Spawned,
    /// Spawned, and a later probe found it running.
    Ready,
    /// Spawned, but no probe found it running within the budget.
    GaveUp,
}

/// Where a start attempt stands.
#[derive(Clone, Copy, Debug, PartialEq, Eq, Structural)]
pub enum Phase {
    Probing,
    Locating,
    Spawning,
    /// Waiting for readiness; the field counts the probes that failed so far.
    Polling(u32),
    Done(Finish),
}

/// What the caller does next.
#[derive(Clone, Copy, Debug, PartialEq, Eq, Structural)]
pub enum Action {
    /// Send one status request.
    Probe,
    /// Look for the daemon executable.
    Locate,
    /// Spawn it detached, standard streams suppressed.
    Spawn,
    /// Sleep `POLL_INTERVAL_MS`, then send one status request.
    WaitThenProbe,
    /// Nothing more to do.
    Finished(Finish),
}

/// What the caller observed.
#[derive(Clone, Copy, Debug, PartialEq, Eq, Structural)]
pub enum Event {
    Probed(bool),
    Located(bool),
    SpawnDone(bool),
}

/// The start sequence: probe, locate, spawn, then (when asked to) poll
/// until the daemon answers or the budget is spent.
#[derive(Clone, Copy, Debug, PartialEq, Eq, Structural)]
pub struct Supervisor {
    pub phase: Phase,
    pub wait_for_ready: bool,
}

pub open spec fn well_formed(s: Supervisor) -> bool {
    match s.phase {
        Phase::Polling(n) => n < MAX_POLLS,
        _ => true,
    }
}

pub open spec fn next_action_spec(s: Supervisor) -> Action {
    match s.phase {
        Phase::Probing => Action::Probe,
        Phase::Locating => Action::Locate,
        Phase::Spawning => Action::Spawn,
        Phase::Polling(_) => Action::WaitThenProbe,
        Phase::Done(f) => Action::Finished(f),
    }
}

/// One transition; an event that does not answer the pending action leaves
/// the state as it is.
pub open spec fn step_spec(s: Supervisor, e: Event) -> Supervisor {
    let phase = match (s.phase, e) {
        (Phase::Probing, Event::Probed(true)) => Phase::Done(Finish::AlreadyRunning),
        (Phase::Probing, Event::Probed(false)) => Phase::Locating,
        (Phase::Locating, Event::Located(true)) => Phase::Spawning,
        (Phase::Locating, Event::Located(false)) => Phase::Done(Finish::NotFound),
        (Phase::Spawning, Event::SpawnDone(true)) => if s.wait_for_ready {
            Phase::Polling(0)
        } else {
            Phase::Done(Finish::Spawned)
        },
        (Phase::Spawning, Event::SpawnDone(false)) => Phase::Done(Finish::SpawnFailed),
        (Phase::Polling(_), Event::Probed(true)) => Phase::Done(Finish::Ready),
        (Phase::Polling(n), Event::Probed(false)) => if n + 1 < MAX_POLLS {
            Phase::Polling((n + 1) as u32)
        } else {
            Phase::Done(Finish::GaveUp)
        },
        _ => s.phase,
    };
    Supervisor { phase, wait_for_ready: s.wait_for_ready }
}

/// The state after a run of probe results, fed in order.
pub open spec fn after_probes(s: Supervisor, results: Seq<bool>) -> Supervisor
    decreases results.len(),
{
    if results.len() == 0 {
        s
    } else {
        step_spec(after_probes(s, results.drop_last()), Event::Probed(results.last()))
    }
}

impl Supervisor {
    /// A fresh start attempt; `wait_for_ready` asks for the polling phase.
    pub fn new(wait_for_ready: bool) -> (r: Supervisor)
        ensures
            r.phase == Phase::Probing,
            r.wait_for_ready == wait_for_ready,
            well_formed(r),
    {
        Supervisor { phase: Phase::Probing, wait_for_ready }
    }

    /// What to do in the current state.
    pub fn next_action(&self) -> (r: Action)
        ensures
            r == next_action_spec(*self),
    {
        match self.phase {
            Phase::Probing => Action::Probe,
            Phase::Locating => Action::Locate,
            Phase::Spawning => Action::Spawn,
            Phase::Polling(_) => Action::WaitThenProbe,
            Phase::Done(f) => Action::Finished(f),
        }
    }

    /// Takes in what the caller observed.
    pub fn step(&mut self, e: Event)
        requires
            well_formed(*old(self)),
        ensures
            *final(self) == step_spec(*old(self), e),
            well_formed(*final(self)),
    {
        let phase = match (self.phase, e) {
            (Phase::Probing, Event::Probed(true)) => Phase::Done(Finish::AlreadyRunning),
            (Phase::Probing, Event::Probed(false)) => Phase::Locating,
            (Phase::Locating, Event::Located(true)) => Phase::Spawning,
            (Phase::Locating, Event::Located(false)) => Phase::Done(Finish::NotFound),
            (Phase::Spawning, Event::SpawnDone(true)) => if self.wait_for_ready {
                Phase::Polling(0)
            } else {
                Phase::Done(Finish::Spawned)
            },
            (Phase::Spawning, Event::SpawnDone(false)) => Phase::Done(Finish::SpawnFailed),
            (Phase::Polling(_), Event::Probed(true)) => Phase::Done(Finish::Ready),
            (Phase::Polling(n), Event::Probed(false)) => if n + 1 < MAX_POLLS {
                Phase::Polling(n + 1)
            } else {
                Phase::Done(Finish::GaveUp)
            },
            (p, _) => p,
        };
        self.phase = phase;
    }
}

/// Whether a start attempt left the daemon reachable or spawned.
pub open spec fn succeeded(f: Finish) -> bool {
    match f {
        Finish::AlreadyRunning | Finish::Spawned | Finish::Ready => true,
        _ => false,
    }
}

/// `m` failed probes.
pub open spec fn failures(m: nat) -> Seq<bool> {
    Seq::new(m, |i: int| false)
}

/// `k` failed probes followed by one that succeeds.
pub open spec fn fail_then_succeed(k: nat) -> Seq<bool> {
    failures(k).push(true)
}

proof fn lemma_failures_keep_polling(s: Supervisor, m: nat)
    requires
        s.phase == Phase::Polling(0),
        m < MAX_POLLS,
    ensures
        after_probes(s, failures(m)) == (Supervisor {
            phase: Phase::Polling(m as u32),
            wait_for_ready: s.wait_for_ready,
        }),
    decreases m,
{
    let rs = failures(m);
    if m > 0 {
        assert(rs.drop_last() =~= failures((m - 1) as nat));
        lemma_failures_keep_polling(s, (m - 1) as nat);
    } else {
        assert(rs =~= Seq::<bool>::empty());
    }
}

/// Once spawned and polling, a daemon that answers the probe after `k`
/// failed ones, with `k` under the budget, is reported ready: the start
/// converges within the budget.
pub proof fn lemma_poll_converges(s: Supervisor, k: nat)
    requires
        s.phase == Phase::Polling(0),
        k < MAX_POLLS,
    ensures
        after_probes(s, fail_then_succeed(k)).phase == Phase::Done(Finish::Ready),
        forall|m: nat| m < k ==> (#[trigger] after_probes(s, failures(m))).phase
            == Phase::Polling(m as u32),
{
    let rs = fail_then_succeed(k);
    assert(rs.drop_last() =~= failures(k));
    lemma_failures_keep_polling(s, k);
    assert forall|m: nat| m < k implies (#[trigger] after_probes(s, failures(m))).phase
        == Phase::Polling(m as u32) by {
        lemma_failures_keep_polling(s, m);
    }
}

/// A daemon that never answers is given up on after exactly `MAX_POLLS`
/// probes, and not before.
pub proof fn lemma_poll_gives_up(s: Supervisor)
    requires
        s.phase == Phase::Polling(0),
    ensures
        after_probes(s, failures(MAX_POLLS as nat)).phase == Phase::Done(Finish::GaveUp),
        forall|m: nat| m < MAX_POLLS ==> (#[trigger] after_probes(s, failures(m))).phase
            == Phase::Polling(m as u32),
{
    let rs = failures(MAX_POLLS as nat);
    assert(rs.drop_last() =~= failures((MAX_POLLS - 1) as nat));
    lemma_failures_keep_polling(s, (MAX_POLLS - 1) as nat);
    assert forall|m: nat| m < MAX_POLLS implies (#[trigger] after_probes(s, failures(m))).phase
        == Phase::Polling(m as u32) by {
        lemma_failures_keep_polling(s, m);
    }
}

/// What the tray shows after one synchronizer tick.
#[derive(Clone, Copy, Debug, PartialEq, Eq, Structural)]
pub struct TrayStatus {
    pub running: bool,
    pub active_sessions: i64,
}

/// One synchronizer tick: running with the daemon's session count when the
/// status exchange succeeded, not running with zero sessions otherwise.
pub fn status_tick(ex: &Exchange) -> (r: TrayStatus)
    ensures
        r.running == running_spec(*ex),
        r.running ==> Some(r.active_sessions) == as_i64(
            field(field(reply_of(*ex)->0, "payload"@)->0, "activeSessions"@),
        ),
        !r.running ==> r.active_sessions == 0,
{
    let st = match ex {
        Exchange::Reply(j) => request_daemon_status(j),
        _ => None,
    };
    match st {
        Some(p) => TrayStatus { running: true, active_sessions: p.active_sessions },
        None => TrayStatus { running: false, active_sessions: 0 },
    }
}

/// Where the daemon executable was found.
#[derive(Clone, Copy, Debug, PartialEq, Eq, Structural)]
pub enum ExeLocation {
    /// Beside the running host executable.
    BesideHost,
    /// In the bundled resource directory.
    Bundled,
}

pub open spec fn daemon_exe_name_spec(p: Platform) -> Seq<char> {
    match p {
        Platform::Windows => "felay-daemon.exe"@,
        Platform::Unix => "felay-daemon"@,
    }
}

/// The daemon executable's file name.
pub fn daemon_exe_name(p: Platform) -> (r: &'static str)
    ensures
        r@ == daemon_exe_name_spec(p),
{
    match p {
        Platform::Windows => "felay-daemon.exe",
        Platform::Unix => "felay-daemon",
    }
}

/// Picks the executable: beside the host first, then the bundled copy.
pub fn find_daemon_exe(p: Platform, beside_exists: bool, bundled_exists: bool) -> (r: Result<ExeLocation, String>)
    ensures
        beside_exists ==> r == Ok::<ExeLocation, String>(ExeLocation::BesideHost),
        !beside_exists && bundled_exists ==> r == Ok::<ExeLocation, String>(ExeLocation::Bundled),
        !beside_exists && !bundled_exists ==> r is Err && r->Err_0@ == "daemon not found: "@
            + daemon_exe_name_spec(p),
{
    if beside_exists {
        Ok(ExeLocation::BesideHost)
    } else if bundled_exists {
        Ok(ExeLocation::Bundled)
    } else {
        Err(String::from_str("daemon not found: ").concat(daemon_exe_name(p)))
    }
}

} // verus!
