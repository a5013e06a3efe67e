use nsrun::launch::initial_transition;
use nsrun::launch::isolated_hostname;
use nsrun::launch::requested_isolation;
use nsrun::launch::step;
use nsrun::launch::Action;
use nsrun::launch::Event;
use nsrun::launch::Phase;
use nsrun::outcome::ExitOutcome;

fn advance(phase: Phase, event: Event) -> (Phase, Action) {
    let t = step(phase, event).expect("event must fit the phase");
    (t.phase, t.action)
}

#[test]
fn launch_begins_with_an_isolation_request() {
    let t = initial_transition();
    assert_eq!(t.phase, Phase::Start);
    assert_eq!(t.action, Action::RequestIsolation);
}

#[test]
fn isolated_hostname_is_the_fixed_label() {
    assert_eq!(isolated_hostname(), "container");
}

#[test]
fn all_three_namespace_facets_are_requested() {
    let mask = requested_isolation();
    assert!(mask.hostname);
    assert!(mask.process_id);
    assert!(mask.mount);
}

#[test]
fn isolated_path_runs_command_after_full_setup() {
    let (p, a) = advance(Phase::Start, Event::IsolationSucceeded);
    assert_eq!((p, a), (Phase::Isolated, Action::Duplicate));
    let (p, a) = advance(p, Event::BecameIsolated);
    assert_eq!((p, a), (Phase::ChildStart, Action::SetIsolatedHostname));
    let (p, a) = advance(p, Event::HostnameSucceeded);
    assert_eq!((p, a), (Phase::HostnameSet, Action::MountProcFs));
    let (p, a) = advance(p, Event::MountSucceeded);
    assert_eq!((p, a), (Phase::ProcMounted, Action::RunCommand));
}

#[test]
fn command_exit_code_becomes_the_isolated_exit_code() {
    for n in [0, 1, 2, 127] {
        let (p, a) = advance(Phase::ProcMounted, Event::CommandExited(ExitOutcome::Code(n)));
        assert_eq!(p, Phase::Done(n));
        assert_eq!(a, Action::Exit(n));
    }
}

#[test]
fn abnormal_command_termination_exits_one() {
    let (p, a) = advance(Phase::ProcMounted, Event::CommandExited(ExitOutcome::Abnormal));
    assert_eq!((p, a), (Phase::Done(1), Action::Exit(1)));
}

#[test]
fn supervisor_adopts_the_observed_exit_code() {
    let (p, a) = advance(Phase::Isolated, Event::BecameSupervisor);
    assert_eq!((p, a), (Phase::Supervising, Action::AwaitChild));
    for n in [0, 1, 2, 127] {
        let (p, a) = advance(Phase::Supervising, Event::WaitSucceeded(ExitOutcome::Code(n)));
        assert_eq!((p, a), (Phase::Done(n), Action::Exit(n)));
    }
    let (_, a) = advance(Phase::Supervising, Event::WaitSucceeded(ExitOutcome::Abnormal));
    assert_eq!(a, Action::Exit(1));
}

#[test]
fn denied_isolation_fails_fast_before_duplication() {
    let (p, a) = advance(Phase::Start, Event::IsolationFailed);
    assert_eq!((p, a), (Phase::Done(1), Action::Exit(1)));
}

#[test]
fn failed_duplication_is_fatal() {
    let (p, a) = advance(Phase::Isolated, Event::DuplicationFailed);
    assert_eq!((p, a), (Phase::Done(1), Action::Exit(1)));
}

#[test]
fn failed_hostname_or_mount_aborts_before_the_command() {
    let (p, a) = advance(Phase::ChildStart, Event::HostnameFailed);
    assert_eq!((p, a), (Phase::Done(1), Action::Exit(1)));
    let (p, a) = advance(Phase::HostnameSet, Event::MountFailed);
    assert_eq!((p, a), (Phase::Done(1), Action::Exit(1)));
}

#[test]
fn failed_launch_exits_nonzero_without_hanging() {
    let (p, a) = advance(Phase::ProcMounted, Event::LaunchFailed);
    assert_eq!((p, a), (Phase::Done(1), Action::Exit(1)));
}

#[test]
fn failed_wait_is_fatal_to_the_supervisor() {
    let (p, a) = advance(Phase::Supervising, Event::WaitFailed);
    assert_eq!((p, a), (Phase::Done(1), Action::Exit(1)));
}

#[test]
fn events_outside_the_protocol_are_refused() {
    assert!(step(Phase::Start, Event::MountSucceeded).is_none());
    assert!(step(Phase::Isolated, Event::IsolationSucceeded).is_none());
    assert!(step(Phase::ChildStart, Event::BecameIsolated).is_none());
    assert!(step(Phase::Supervising, Event::CommandExited(ExitOutcome::Code(0))).is_none());
    assert!(step(Phase::ProcMounted, Event::WaitSucceeded(ExitOutcome::Code(0))).is_none());
}

#[test]
fn terminal_phase_accepts_no_event() {
    assert!(step(Phase::Done(0), Event::IsolationSucceeded).is_none());
    assert!(step(Phase::Done(1), Event::WaitFailed).is_none());
    assert!(step(Phase::Done(127), Event::CommandExited(ExitOutcome::Code(0))).is_none());
}
