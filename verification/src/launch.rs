//! The isolation-and-launch sequence as a verified state machine.
//!
//! The launch proceeds through a fixed protocol: request new hostname, pid and
//! mount namespaces; duplicate the process; in the supervisor continuation,
//! wait for the isolated continuation; in the isolated continuation, set the
//! isolated hostname, mount a fresh proc filesystem, run the command, and exit
//! with its status.  Every failure is fatal and ends the owning continuation
//! with a non-zero code.
//!
//! This module decides; it performs nothing.  An unverified driver executes
//! each prescribed [`Action`] with the actual kernel calls and hands the
//! outcome back as an [`Event`].  [`step`] then prescribes the next action.

use vstd::prelude::*;

use crate::outcome::ExitOutcome;
use crate::outcome::exit_code;
use crate::outcome::exit_code_spec;

verus! {

/// The isolation facets a launch requests: a private hostname view, a private
/// process-id space, and a private mount table.
#[derive(Clone, Copy, PartialEq, Eq, Debug)]
pub struct NamespaceMask {
    pub hostname: bool,
    pub process_id: bool,
    pub mount: bool,
}

/// The one mask this launcher ever requests: all three facets.  There is no
/// partial-isolation fallback.
pub open spec fn full_isolation_spec() -> NamespaceMask {
    NamespaceMask { hostname: true, process_id: true, mount: true }
}

/// Returns the namespace mask behind [`Action::RequestIsolation`]: hostname,
/// process-id and mount isolation, fixed at build time.
pub fn requested_isolation() -> (r: NamespaceMask)
    ensures
        r == full_isolation_spec(),
{
    NamespaceMask { hostname: true, process_id: true, mount: true }
}

/// Where a continuation stands in the launch protocol.
#[derive(Clone, Copy, PartialEq, Eq, Debug)]
pub enum Phase {
    /// Nothing has happened yet: no namespace was requested, no process
    /// created.
    Start,
    /// The calling process now occupies new hostname, pid and mount
    /// namespaces; it is still a single process.
    Isolated,
    /// The supervisor continuation after duplication, owner of the one handle
    /// to the isolated process.
    Supervising,
    /// The isolated continuation after duplication, before any in-namespace
    /// setup.
    ChildStart,
    /// The isolated continuation after its hostname was set.
    HostnameSet,
    /// The isolated continuation after the fresh proc filesystem was mounted;
    /// the namespace is fully initialized.
    ProcMounted,
    /// Terminal: the continuation exits with this code.
    Done(i32),
}

/// What the driver observed after performing the prescribed action.
#[derive(Clone, Copy, PartialEq, Eq, Debug)]
pub enum Event {
    /// The namespace request was granted.
    IsolationSucceeded,
    /// The namespace request was denied (for example for lack of privilege).
    IsolationFailed,
    /// Duplication succeeded and this is the supervisor continuation.
    BecameSupervisor,
    /// Duplication succeeded and this is the isolated continuation.
    BecameIsolated,
    /// Duplication failed; there is no isolated process.
    DuplicationFailed,
    /// The isolated hostname was set.
    HostnameSucceeded,
    /// Setting the hostname failed.
    HostnameFailed,
    /// The fresh proc filesystem was mounted.
    MountSucceeded,
    /// Mounting the proc filesystem failed.
    MountFailed,
    /// The command was spawned and terminated with this outcome.
    CommandExited(ExitOutcome),
    /// The command could not be spawned (not found, not executable).
    LaunchFailed,
    /// The supervisor observed the isolated process terminate with this
    /// outcome.
    WaitSucceeded(ExitOutcome),
    /// Waiting on the isolated process failed.
    WaitFailed,
}

/// What the driver must do next.
#[derive(Clone, Copy, PartialEq, Eq, Debug)]
pub enum Action {
    /// Request new hostname, pid and mount namespaces for the calling
    /// process.  Must happen before duplication, on a single-threaded
    /// process.
    RequestIsolation,
    /// Duplicate the process into supervisor and isolated continuations.
    Duplicate,
    /// Set the hostname, inside the isolated continuation, to
    /// [`isolated_hostname`].
    SetIsolatedHostname,
    /// Mount a fresh proc filesystem at its conventional mount point.
    MountProcFs,
    /// Spawn the requested command, inheriting standard I/O, and block until
    /// it terminates.
    RunCommand,
    /// Block until the isolated process terminates.
    AwaitChild,
    /// Terminate the calling continuation with this exit code.
    Exit(i32),
}

/// One transition: the phase entered and the action now prescribed.
#[derive(Clone, Copy, PartialEq, Eq, Debug)]
pub struct Transition {
    pub phase: Phase,
    pub action: Action,
}

/// A transition into `phase` that prescribes `action`.
pub open spec fn step_to(phase: Phase, action: Action) -> Option<Transition> {
    Some(Transition { phase, action })
}

/// The one transition for every fatal failure: surface it by exiting with
/// code 1.  Kernel-owned namespace and mount state needs no explicit cleanup;
/// it is reclaimed when the owning process exits.
pub open spec fn fatal_step() -> Option<Transition> {
    step_to(Phase::Done(1), Action::Exit(1))
}

/// The launch protocol: from a phase and an observed event, the next phase
/// and action.  `None` means the event cannot occur in that phase; a correct
/// driver never sees it.
pub open spec fn step_spec(p: Phase, e: Event) -> Option<Transition> {
    match (p, e) {
        (Phase::Start, Event::IsolationSucceeded) => step_to(Phase::Isolated, Action::Duplicate),
        (Phase::Start, Event::IsolationFailed) => fatal_step(),
        (Phase::Isolated, Event::BecameSupervisor) => step_to(
            Phase::Supervising,
            Action::AwaitChild,
        ),
        (Phase::Isolated, Event::BecameIsolated) => step_to(
            Phase::ChildStart,
            Action::SetIsolatedHostname,
        ),
        (Phase::Isolated, Event::DuplicationFailed) => fatal_step(),
        (Phase::Supervising, Event::WaitSucceeded(o)) => step_to(
            Phase::Done(exit_code_spec(o)),
            Action::Exit(exit_code_spec(o)),
        ),
        (Phase::Supervising, Event::WaitFailed) => fatal_step(),
        (Phase::ChildStart, Event::HostnameSucceeded) => step_to(
            Phase::HostnameSet,
            Action::MountProcFs,
        ),
        (Phase::ChildStart, Event::HostnameFailed) => fatal_step(),
        (Phase::HostnameSet, Event::MountSucceeded) => step_to(
            Phase::ProcMounted,
            Action::RunCommand,
        ),
        (Phase::HostnameSet, Event::MountFailed) => fatal_step(),
        (Phase::ProcMounted, Event::CommandExited(o)) => step_to(
            Phase::Done(exit_code_spec(o)),
            Action::Exit(exit_code_spec(o)),
        ),
        (Phase::ProcMounted, Event::LaunchFailed) => fatal_step(),
        _ => None,
    }
}

/// Where every launch begins: nothing done yet, isolation to be requested
/// first.
pub open spec fn initial_transition_spec() -> Transition {
    Transition { phase: Phase::Start, action: Action::RequestIsolation }
}

/// Returns the starting phase and the first action of a launch.
pub fn initial_transition() -> (r: Transition)
    ensures
        r == initial_transition_spec(),
{
    Transition { phase: Phase::Start, action: Action::RequestIsolation }
}

/// Advances the protocol by one observed event.  Returns `None` exactly when
/// the event cannot occur in the given phase.
pub fn step(p: Phase, e: Event) -> (r: Option<Transition>)
    ensures
        r == step_spec(p, e),
{
    match (p, e) {
        (Phase::Start, Event::IsolationSucceeded) => Some(
            Transition { phase: Phase::Isolated, action: Action::Duplicate },
        ),
        (Phase::Start, Event::IsolationFailed) => Some(
            Transition { phase: Phase::Done(1), action: Action::Exit(1) },
        ),
        (Phase::Isolated, Event::BecameSupervisor) => Some(
            Transition { phase: Phase::Supervising, action: Action::AwaitChild },
        ),
        (Phase::Isolated, Event::BecameIsolated) => Some(
            Transition { phase: Phase::ChildStart, action: Action::SetIsolatedHostname },
        ),
        (Phase::Isolated, Event::DuplicationFailed) => Some(
            Transition { phase: Phase::Done(1), action: Action::Exit(1) },
        ),
        (Phase::Supervising, Event::WaitSucceeded(o)) => {
            let code = exit_code(&o);
            Some(Transition { phase: Phase::Done(code), action: Action::Exit(code) })
        },
        (Phase::Supervising, Event::WaitFailed) => Some(
            Transition { phase: Phase::Done(1), action: Action::Exit(1) },
        ),
        (Phase::ChildStart, Event::HostnameSucceeded) => Some(
            Transition { phase: Phase::HostnameSet, action: Action::MountProcFs },
        ),
        (Phase::ChildStart, Event::HostnameFailed) => Some(
            Transition { phase: Phase::Done(1), action: Action::Exit(1) },
        ),
        (Phase::HostnameSet, Event::MountSucceeded) => Some(
            Transition { phase: Phase::ProcMounted, action: Action::RunCommand },
        ),
        (Phase::HostnameSet, Event::MountFailed) => Some(
            Transition { phase: Phase::Done(1), action: Action::Exit(1) },
        ),
        (Phase::ProcMounted, Event::CommandExited(o)) => {
            let code = exit_code(&o);
            Some(Transition { phase: Phase::Done(code), action: Action::Exit(code) })
        },
        (Phase::ProcMounted, Event::LaunchFailed) => Some(
            Transition { phase: Phase::Done(1), action: Action::Exit(1) },
        ),
        _ => None,
    }
}

/// The phase a continuation stands in after observing `events` in order,
/// starting from [`Phase::Start`].  `None` means some event broke the
/// protocol.
pub open spec fn phase_after(events: Seq<Event>) -> Option<Phase>
    decreases events.len(),
{
    if events.len() == 0 {
        Some(Phase::Start)
    } else {
        match phase_after(events.drop_last()) {
            Some(p) => match step_spec(p, events.last()) {
                Some(t) => Some(t.phase),
                None => None,
            },
            None => None,
        }
    }
}

/// The one event history that reaches each non-terminal phase.
pub open spec fn setup_trace(p: Phase) -> Seq<Event> {
    match p {
        Phase::Start => Seq::<Event>::empty(),
        Phase::Isolated => seq![Event::IsolationSucceeded],
        Phase::Supervising => seq![Event::IsolationSucceeded, Event::BecameSupervisor],
        Phase::ChildStart => seq![Event::IsolationSucceeded, Event::BecameIsolated],
        Phase::HostnameSet => seq![
            Event::IsolationSucceeded,
            Event::BecameIsolated,
            Event::HostnameSucceeded,
        ],
        Phase::ProcMounted => seq![
            Event::IsolationSucceeded,
            Event::BecameIsolated,
            Event::HostnameSucceeded,
            Event::MountSucceeded,
        ],
        Phase::Done(_) => Seq::<Event>::empty(),
    }
}

/// A terminal phase accepts no further event: once a continuation has decided
/// to exit, the protocol prescribes nothing more, so it cannot hang waiting.
pub proof fn lemma_done_is_terminal(code: i32, e: Event)
    ensures
        step_spec(Phase::Done(code), e) is None,
{
}

/// Every non-terminal phase is reached by exactly one event history.  In
/// particular, each phase of the launch occurs at most once per continuation:
/// one isolation request, one duplication, one wait.
pub proof fn lemma_setup_trace_unique(events: Seq<Event>, p: Phase)
    requires
        phase_after(events) == Some(p),
        !(p is Done),
    ensures
        events =~= setup_trace(p),
    decreases events.len(),
{
    if events.len() == 0 {
        assert(p == Phase::Start);
    } else {
        let prev = events.drop_last();
        let e = events.last();
        let pp = phase_after(prev)->Some_0;
        assert(phase_after(prev) is Some);
        assert(step_spec(pp, e) is Some);
        assert(step_spec(pp, e)->Some_0.phase == p);
        assert(!(pp is Done));
        lemma_setup_trace_unique(prev, pp);
        assert(events =~= prev.push(e));
        assert(setup_trace(pp).push(e) =~= setup_trace(p));
    }
}

/// Duplication happens only after the namespace request was granted, and a
/// denied request ends the launch at once with a non-zero code — before any
/// process is created.
pub proof fn lemma_isolation_gates_duplication(p: Phase, e: Event)
    ensures
        step_spec(Phase::Start, Event::IsolationFailed) == fatal_step(),
        (step_spec(p, e) matches Some(t) && t.action == Action::Duplicate) ==> p == Phase::Start
            && e == Event::IsolationSucceeded,
{
}

/// The command is run only from a fully initialized namespace: isolation
/// granted, the isolated continuation entered, its hostname set, and the
/// fresh proc filesystem mounted, in exactly that order and nothing else.
/// The command therefore never sees the host's pre-existing mount of the
/// process-information filesystem.
pub proof fn lemma_command_needs_initialized_namespace(events: Seq<Event>, p: Phase, e: Event)
    ensures
        (step_spec(p, e) matches Some(t) && t.action == Action::RunCommand) ==> p
            == Phase::HostnameSet && e == Event::MountSucceeded,
        phase_after(events) == Some(Phase::ProcMounted) ==> events =~= seq![
            Event::IsolationSucceeded,
            Event::BecameIsolated,
            Event::HostnameSucceeded,
            Event::MountSucceeded,
        ],
{
    if phase_after(events) == Some(Phase::ProcMounted) {
        lemma_setup_trace_unique(events, Phase::ProcMounted);
    }
}

/// The isolated hostname is set only inside the isolated continuation, right
/// after duplication and before anything else runs there.
pub proof fn lemma_hostname_set_only_in_isolated_child(events: Seq<Event>, p: Phase, e: Event)
    ensures
        (step_spec(p, e) matches Some(t) && t.action == Action::SetIsolatedHostname) ==> p
            == Phase::Isolated && e == Event::BecameIsolated,
        phase_after(events) == Some(Phase::ChildStart) ==> events =~= seq![
            Event::IsolationSucceeded,
            Event::BecameIsolated,
        ],
{
    if phase_after(events) == Some(Phase::ChildStart) {
        lemma_setup_trace_unique(events, Phase::ChildStart);
    }
}

/// The supervisor waits on the isolated process exactly once: waiting is
/// prescribed only on becoming the supervisor, and the supervising phase is
/// reached by exactly one history.
pub proof fn lemma_supervisor_waits_once(events: Seq<Event>, p: Phase, e: Event)
    ensures
        (step_spec(p, e) matches Some(t) && t.action == Action::AwaitChild) ==> p
            == Phase::Isolated && e == Event::BecameSupervisor,
        phase_after(events) == Some(Phase::Supervising) ==> events =~= seq![
            Event::IsolationSucceeded,
            Event::BecameSupervisor,
        ],
{
    if phase_after(events) == Some(Phase::Supervising) {
        lemma_setup_trace_unique(events, Phase::Supervising);
    }
}

/// Exit codes propagate unchanged: a command that exits with code `n` makes
/// the isolated continuation exit with `n`, and a supervisor that observes
/// the isolated process exit with `n` exits with `n` itself.  An abnormal
/// termination becomes code 1.
pub proof fn lemma_exit_code_propagation(o: ExitOutcome)
    ensures
        step_spec(Phase::ProcMounted, Event::CommandExited(o)) == step_to(
            Phase::Done(exit_code_spec(o)),
            Action::Exit(exit_code_spec(o)),
        ),
        step_spec(Phase::Supervising, Event::WaitSucceeded(o)) == step_to(
            Phase::Done(exit_code_spec(o)),
            Action::Exit(exit_code_spec(o)),
        ),
        o matches ExitOutcome::Code(n) ==> exit_code_spec(o) == n,
        o is Abnormal ==> exit_code_spec(o) == 1,
{
}

/// Every failure event is fatal: the continuation that observes it exits at
/// once with the non-zero code 1.  In particular a command that cannot be
/// spawned still terminates the isolated continuation instead of leaving it
/// hanging.
pub proof fn lemma_failures_are_fatal(p: Phase, e: Event)
    ensures
        (e is IsolationFailed || e is DuplicationFailed || e is HostnameFailed || e
            is MountFailed || e is LaunchFailed || e is WaitFailed) && step_spec(p, e) is Some
            ==> step_spec(p, e) == fatal_step(),
        fatal_step() matches Some(t) && t.action == Action::Exit(1) && t.phase == Phase::Done(1),
{
}

/// The fixed label the isolated continuation adopts as its hostname.
pub open spec fn isolated_hostname_spec() -> Seq<char> {
    "container"@
}

/// Returns the fixed hostname label for the isolated continuation.
pub fn isolated_hostname() -> (r: String)
    ensures
        r@ == isolated_hostname_spec(),
{
    String::from_str("container")
}

} // verus!
