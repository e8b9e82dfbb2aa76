//! The top-level lifecycle controller: a cycle-free state machine that
//! sequences facilities initialization, self-install detection, command
//! dispatch and the best-effort update check, and fixes the single process
//! outcome. Each step consumes one event (the completion of the outside work
//! the previous action requested) and names the next action to perform; the
//! surrounding program performs actions and feeds results back as events.

use vstd::prelude::*;

use crate::command::{Command, InvocationContext};
use crate::detect::{classify_invocation, is_installer_path, spec_mode, Mode};
use crate::dispatch::{spec_dispatch, HandlerCall};
use crate::{exit_code, spec_exit_code, Outcome};

verus! {

/// The controller's phase. The machine is a straight line with one branch:
/// an installer invocation ends without parsing, dispatching or checking for
/// updates; a normal invocation dispatches once and then always checks.
#[derive(Clone, Debug, PartialEq)]
pub enum Phase {
    /// Nothing has run yet.
    Start,
    /// Facilities initialization is under way; the invocation mode is
    /// already classified from the executable path.
    Initializing { mode: Mode },
    /// The installer is running; its result becomes the process outcome.
    Installing,
    /// The argument-parsing layer is producing the command.
    AwaitingCommand,
    /// The selected handler is running; `report` records whether it is the
    /// crash-report handler, whose success triggers the fixed confirmation.
    Dispatching { report: bool },
    /// The update check is running; the process outcome is already fixed
    /// and can no longer change.
    Checking { outcome: Outcome },
    /// Terminal: the process outcome, the single source of truth for the
    /// exit code.
    Done { outcome: Outcome },
}

/// One completion the surrounding program reports back to the controller.
#[derive(Clone, Debug, PartialEq)]
pub enum Event {
    /// The process was entered, with the running executable's path (when it
    /// could be determined) and whether this is a debug build.
    Invoked { exe_path: Option<String>, debug_build: bool },
    /// Facilities initialization completed.
    FacilitiesReady,
    /// The installer returned.
    InstallerFinished { result: Outcome },
    /// The argument-parsing layer produced the validated command and the
    /// invocation context.
    CommandParsed { cmd: Command, ctx: InvocationContext },
    /// The dispatched handler returned.
    HandlerFinished { result: Outcome },
    /// The update check returned; its own success or failure is recorded
    /// only to show that the controller discards it.
    UpdateCheckFinished { succeeded: bool },
}

/// The outside work the controller asks for next.
#[derive(Clone, Debug, PartialEq)]
pub enum Action {
    /// Initialize crash/error reporting (only when `error_reporting` is set,
    /// that is, outside debug builds) and then logging, in that order.
    InitFacilities { error_reporting: bool },
    /// Run the self-installation routine.
    RunInstaller,
    /// Have the argument-parsing layer produce the command.
    ParseCommand,
    /// Perform the named handler invocation, threading the invocation
    /// context into handlers that declare it.
    RunHandler { call: HandlerCall, ctx: InvocationContext },
    /// Run the best-effort update check; when `confirm_report` is set, first
    /// emit the fixed crash-report confirmation message.
    CheckUpdates { confirm_report: bool },
    /// End the process with this exit code.
    Exit { code: i32 },
}

/// The view of an optional executable path.
pub open spec fn string_opt_view(s: Option<String>) -> Option<Seq<char>> {
    match s {
        Some(p) => Some(p@),
        None => None,
    }
}

/// The controller's transition function: from a phase and the event that
/// completes it, the next phase and the next action. `None` means the event
/// does not belong to the phase; the terminal phase accepts no event.
pub open spec fn spec_step(phase: Phase, event: Event) -> Option<(Phase, Action)> {
    match (phase, event) {
        (Phase::Start, Event::Invoked { exe_path, debug_build }) => Some(
            (
                Phase::Initializing { mode: spec_mode(string_opt_view(exe_path)) },
                Action::InitFacilities { error_reporting: !debug_build },
            ),
        ),
        (Phase::Initializing { mode }, Event::FacilitiesReady) => if mode == Mode::Installer {
            Some((Phase::Installing, Action::RunInstaller))
        } else {
            Some((Phase::AwaitingCommand, Action::ParseCommand))
        },
        (Phase::Installing, Event::InstallerFinished { result }) => Some(
            (Phase::Done { outcome: result }, Action::Exit { code: spec_exit_code(result) }),
        ),
        (Phase::AwaitingCommand, Event::CommandParsed { cmd, ctx }) => Some(
            (
                Phase::Dispatching { report: cmd is Report },
                Action::RunHandler { call: spec_dispatch(cmd), ctx },
            ),
        ),
        (Phase::Dispatching { report }, Event::HandlerFinished { result }) => Some(
            (
                Phase::Checking { outcome: result },
                Action::CheckUpdates { confirm_report: report && result is Success },
            ),
        ),
        (Phase::Checking { outcome }, Event::UpdateCheckFinished { .. }) => Some(
            (Phase::Done { outcome }, Action::Exit { code: spec_exit_code(outcome) }),
        ),
        _ => None,
    }
}

/// Performs one controller step: consumes the phase and the event and
/// returns the next phase with the action to perform, exactly as the
/// transition function says.
pub fn step(phase: Phase, event: Event) -> (r: Option<(Phase, Action)>)
    ensures
        r == spec_step(phase, event),
{
    match (phase, event) {
        (Phase::Start, Event::Invoked { exe_path, debug_build }) => {
            let mode = match &exe_path {
                Some(p) => classify_invocation(Some(p.as_str())),
                None => classify_invocation(None),
            };
            Some(
                (
                    Phase::Initializing { mode },
                    Action::InitFacilities { error_reporting: !debug_build },
                ),
            )
        },
        (Phase::Initializing { mode }, Event::FacilitiesReady) => {
            if mode == Mode::Installer {
                Some((Phase::Installing, Action::RunInstaller))
            } else {
                Some((Phase::AwaitingCommand, Action::ParseCommand))
            }
        },
        (Phase::Installing, Event::InstallerFinished { result }) => {
            let code = exit_code(&result);
            Some((Phase::Done { outcome: result }, Action::Exit { code }))
        },
        (Phase::AwaitingCommand, Event::CommandParsed { cmd, ctx }) => {
            let report = cmd.is_report();
            Some(
                (
                    Phase::Dispatching { report },
                    Action::RunHandler { call: crate::dispatch::dispatch(cmd), ctx },
                ),
            )
        },
        (Phase::Dispatching { report }, Event::HandlerFinished { result }) => {
            let ok = result.is_success();
            Some(
                (
                    Phase::Checking { outcome: result },
                    Action::CheckUpdates { confirm_report: report && ok },
                ),
            )
        },
        (Phase::Checking { outcome }, Event::UpdateCheckFinished { succeeded: _ }) => {
            let code = exit_code(&outcome);
            Some((Phase::Done { outcome }, Action::Exit { code }))
        },
        (_, _) => None,
    }
}

/// Each phase accepts exactly one kind of event, and the terminal phase
/// accepts none: every step of the lifecycle fully completes before the next
/// begins, with no interleaving.
pub proof fn lemma_one_event_per_phase(phase: Phase, event: Event)
    ensures
        spec_step(phase, event) is Some <==> match phase {
            Phase::Start => event is Invoked,
            Phase::Initializing { .. } => event is FacilitiesReady,
            Phase::Installing => event is InstallerFinished,
            Phase::AwaitingCommand => event is CommandParsed,
            Phase::Dispatching { .. } => event is HandlerFinished,
            Phase::Checking { .. } => event is UpdateCheckFinished,
            Phase::Done { .. } => false,
        },
{
}

/// Facilities initialization always completes before any later step: from
/// the start the controller can ask for nothing but facilities
/// initialization, and installer, parsing, handler or update-check work is
/// only ever asked for from phases that lie behind the facilities-ready
/// event.
pub proof fn lemma_facilities_first(phase: Phase, event: Event)
    ensures
        phase is Start && spec_step(phase, event) is Some ==> (spec_step(phase, event) matches Some(
            (p, a),
        ) && a is InitFacilities),
        spec_step(phase, event) matches Some((p, a)) && (a is RunInstaller
            || a is ParseCommand) ==> phase is Initializing && event is FacilitiesReady,
        spec_step(phase, event) matches Some((p, a)) && a is RunHandler
            ==> phase is AwaitingCommand,
        spec_step(phase, event) matches Some((p, a)) && a is CheckUpdates
            ==> phase is Dispatching,
        spec_step(phase, event) matches Some((p, a)) && a is InitFacilities ==> phase is Start
            && event is Invoked,
{
}

/// The steps of a run: starting from `phase` and consuming the events in
/// order for as long as each fits its phase, the phase each action was
/// issued from, paired with that action.
pub open spec fn run_steps(phase: Phase, events: Seq<Event>) -> Seq<(Phase, Action)>
    decreases events.len(),
{
    if events.len() == 0 {
        Seq::empty()
    } else {
        match spec_step(phase, events[0]) {
            Some((next, action)) => seq![(phase, action)] + run_steps(next, events.drop_first()),
            None => Seq::empty(),
        }
    }
}

/// The rank of a phase along the lifecycle; every step strictly raises it.
pub open spec fn phase_rank(phase: Phase) -> int {
    match phase {
        Phase::Start => 0,
        Phase::Initializing { .. } => 1,
        Phase::Installing => 2,
        Phase::AwaitingCommand => 2,
        Phase::Dispatching { .. } => 3,
        Phase::Checking { .. } => 4,
        Phase::Done { .. } => 5,
    }
}

/// The lifecycle has no cycles and no retries: each step moves strictly
/// forward, so no phase — and with it no action, facilities initialization
/// and the handler included — is ever taken up a second time in one process.
pub proof fn lemma_no_cycles(phase: Phase, event: Event, next: Phase, action: Action)
    requires
        spec_step(phase, event) == Some((next, action)),
    ensures
        phase_rank(next) > phase_rank(phase),
{
}

/// Every step of a run is issued from a phase at least as far along as the
/// phase the run began in.
pub proof fn lemma_run_sources_at_least(phase: Phase, events: Seq<Event>, k: int)
    requires
        0 <= k < run_steps(phase, events).len(),
    ensures
        phase_rank(run_steps(phase, events)[k].0) >= phase_rank(phase),
    decreases events.len(),
{
    match spec_step(phase, events[0]) {
        Some((next, action)) => {
            if k > 0 {
                lemma_no_cycles(phase, events[0], next, action);
                lemma_run_sources_at_least(next, events.drop_first(), k - 1);
            }
        },
        None => {},
    }
}

/// Along any run the issuing phases move strictly forward: a later action
/// always comes from a strictly later phase.
pub proof fn lemma_run_sources_strictly_increase(phase: Phase, events: Seq<Event>, i: int, j: int)
    requires
        0 <= i < j < run_steps(phase, events).len(),
    ensures
        phase_rank(run_steps(phase, events)[i].0) < phase_rank(run_steps(phase, events)[j].0),
    decreases events.len(),
{
    match spec_step(phase, events[0]) {
        Some((next, action)) => {
            if i == 0 {
                lemma_no_cycles(phase, events[0], next, action);
                lemma_run_sources_at_least(next, events.drop_first(), j - 1);
            } else {
                lemma_run_sources_strictly_increase(next, events.drop_first(), i - 1, j - 1);
            }
        },
        None => {},
    }
}

/// Each kind of action is issued from one kind of phase only.
pub proof fn lemma_run_source_shapes(phase: Phase, events: Seq<Event>, k: int)
    requires
        0 <= k < run_steps(phase, events).len(),
    ensures
        run_steps(phase, events)[k].1 is InitFacilities ==> run_steps(phase, events)[k].0 is Start,
        run_steps(phase, events)[k].1 is RunInstaller ==> run_steps(
            phase,
            events,
        )[k].0 is Initializing,
        run_steps(phase, events)[k].1 is ParseCommand ==> run_steps(
            phase,
            events,
        )[k].0 is Initializing,
        run_steps(phase, events)[k].1 is RunHandler ==> run_steps(
            phase,
            events,
        )[k].0 is AwaitingCommand,
        run_steps(phase, events)[k].1 is CheckUpdates ==> run_steps(
            phase,
            events,
        )[k].0 is Dispatching,
    decreases events.len(),
{
    match spec_step(phase, events[0]) {
        Some((next, action)) => {
            if k > 0 {
                lemma_run_source_shapes(next, events.drop_first(), k - 1);
            }
        },
        None => {},
    }
}

/// Along any run of the controller from its start — whatever events are fed
/// to it — facilities initialization is never a later step, command parsing,
/// the installer, the handler and the update check are each issued at most
/// once, and the installer is never issued beside command parsing.
pub proof fn lemma_actions_at_most_once(events: Seq<Event>, i: int, j: int)
    requires
        0 <= i < j < run_steps(Phase::Start, events).len(),
    ensures
        !(run_steps(Phase::Start, events)[j].1 is InitFacilities),
        !(run_steps(Phase::Start, events)[i].1 is RunInstaller && run_steps(
            Phase::Start,
            events,
        )[j].1 is RunInstaller),
        !(run_steps(Phase::Start, events)[i].1 is ParseCommand && run_steps(
            Phase::Start,
            events,
        )[j].1 is ParseCommand),
        !(run_steps(Phase::Start, events)[i].1 is RunInstaller && run_steps(
            Phase::Start,
            events,
        )[j].1 is ParseCommand),
        !(run_steps(Phase::Start, events)[i].1 is ParseCommand && run_steps(
            Phase::Start,
            events,
        )[j].1 is RunInstaller),
        !(run_steps(Phase::Start, events)[i].1 is RunHandler && run_steps(
            Phase::Start,
            events,
        )[j].1 is RunHandler),
        !(run_steps(Phase::Start, events)[i].1 is CheckUpdates && run_steps(
            Phase::Start,
            events,
        )[j].1 is CheckUpdates),
{
    lemma_run_source_shapes(Phase::Start, events, i);
    lemma_run_source_shapes(Phase::Start, events, j);
    lemma_run_sources_at_least(Phase::Start, events, i);
    lemma_run_sources_strictly_increase(Phase::Start, events, i, j);
}

/// Once the installer has been asked for, every later action of the run is
/// the exit: an installer invocation can never be followed by command
/// parsing, a handler or an update check, whatever events are fed in.
pub proof fn lemma_install_excludes_dispatch(phase: Phase, events: Seq<Event>, i: int, j: int)
    requires
        0 <= i < j < run_steps(phase, events).len(),
        run_steps(phase, events)[i].1 is RunInstaller,
    ensures
        run_steps(phase, events)[j].1 is Exit,
    decreases events.len(),
{
    match spec_step(phase, events[0]) {
        Some((next, action)) => {
            if i == 0 {
                lemma_installer_branch_terminal(events.drop_first(), j - 1);
            } else {
                lemma_install_excludes_dispatch(next, events.drop_first(), i - 1, j - 1);
            }
        },
        None => {},
    }
}

/// From the installing phase the only thing a run can still do is exit.
pub proof fn lemma_installer_branch_terminal(events: Seq<Event>, k: int)
    requires
        0 <= k < run_steps(Phase::Installing, events).len(),
    ensures
        run_steps(Phase::Installing, events)[k].1 is Exit,
    decreases events.len(),
{
    match spec_step(Phase::Installing, events[0]) {
        Some((next, action)) => {
            if k > 0 {
                assert(run_steps(next, events.drop_first()) =~= Seq::<(Phase, Action)>::empty());
            }
        },
        None => {},
    }
}

/// An installer invocation (the executable's file stem carries the installer
/// prefix) runs the installer and nothing else: facilities first, then the
/// installer, whose result becomes the process outcome verbatim with its
/// exit code. No command is parsed, no handler runs, no update check runs —
/// whatever the command line held — and the run is terminal.
pub proof fn lemma_installer_run(exe_path: Option<String>, debug_build: bool, result: Outcome)
    requires
        (string_opt_view(exe_path) matches Some(p) && is_installer_path(p)),
    ensures
        spec_step(Phase::Start, Event::Invoked { exe_path, debug_build }) == Some(
            (
                Phase::Initializing { mode: Mode::Installer },
                Action::InitFacilities { error_reporting: !debug_build },
            ),
        ),
        spec_step(Phase::Initializing { mode: Mode::Installer }, Event::FacilitiesReady) == Some(
            (Phase::Installing, Action::RunInstaller),
        ),
        spec_step(Phase::Installing, Event::InstallerFinished { result }) == Some(
            (Phase::Done { outcome: result }, Action::Exit { code: spec_exit_code(result) }),
        ),
        forall|e: Event| spec_step(Phase::Installing, e) is Some ==> e is InstallerFinished,
        forall|e: Event| spec_step(Phase::Done { outcome: result }, e) is None,
{
}

/// A normal invocation (the file stem lacks the installer prefix, or no
/// executable path could be determined at all) always reaches dispatch:
/// facilities first, then parsing, then exactly the matching handler with
/// the invocation context, then — whether the handler succeeded or failed —
/// the update check, and the end with the handler's own result as the
/// process outcome.
pub proof fn lemma_normal_run(
    exe_path: Option<String>,
    debug_build: bool,
    cmd: Command,
    ctx: InvocationContext,
    result: Outcome,
    update_ok: bool,
)
    requires
        match string_opt_view(exe_path) {
            Some(p) => !is_installer_path(p),
            None => true,
        },
    ensures
        spec_step(Phase::Start, Event::Invoked { exe_path, debug_build }) == Some(
            (
                Phase::Initializing { mode: Mode::Normal },
                Action::InitFacilities { error_reporting: !debug_build },
            ),
        ),
        spec_step(Phase::Initializing { mode: Mode::Normal }, Event::FacilitiesReady) == Some(
            (Phase::AwaitingCommand, Action::ParseCommand),
        ),
        spec_step(Phase::AwaitingCommand, Event::CommandParsed { cmd, ctx }) == Some(
            (
                Phase::Dispatching { report: cmd is Report },
                Action::RunHandler { call: spec_dispatch(cmd), ctx },
            ),
        ),
        spec_step(
            Phase::Dispatching { report: cmd is Report },
            Event::HandlerFinished { result },
        ) == Some(
            (
                Phase::Checking { outcome: result },
                Action::CheckUpdates { confirm_report: cmd is Report && result is Success },
            ),
        ),
        spec_step(
            Phase::Checking { outcome: result },
            Event::UpdateCheckFinished { succeeded: update_ok },
        ) == Some((Phase::Done { outcome: result }, Action::Exit { code: spec_exit_code(result) })),
{
}

/// The update check runs after a dispatched handler finishes, whatever the
/// handler's result was: success and failure lead to the same next action.
pub proof fn lemma_update_check_always_runs(report: bool, result: Outcome)
    ensures
        spec_step(Phase::Dispatching { report }, Event::HandlerFinished { result }) == Some(
            (
                Phase::Checking { outcome: result },
                Action::CheckUpdates { confirm_report: report && result is Success },
            ),
        ),
{
}

/// The update check's own result is discarded at its boundary: from the
/// checking phase the process ends with the already-determined outcome,
/// unchanged down to its failure message, and with the exit code computed
/// from that outcome alone — whether the check succeeded or failed.
pub proof fn lemma_update_check_preserves_outcome(outcome: Outcome, succeeded: bool)
    ensures
        spec_step(Phase::Checking { outcome }, Event::UpdateCheckFinished { succeeded }) == Some(
            (Phase::Done { outcome }, Action::Exit { code: spec_exit_code(outcome) }),
        ),
        spec_step(Phase::Checking { outcome }, Event::UpdateCheckFinished { succeeded: true })
            == spec_step(
            Phase::Checking { outcome },
            Event::UpdateCheckFinished { succeeded: false },
        ),
{
}

/// The process outcome has exactly one source of truth: a terminal phase is
/// only ever reached from the installer's own result or from a dispatched
/// handler's own result, carried over verbatim.
pub proof fn lemma_outcome_single_source(phase: Phase, event: Event, next: Phase, action: Action)
    requires
        spec_step(phase, event) == Some((next, action)),
        next is Done,
    ensures
        ({
            ||| phase is Installing && (event matches Event::InstallerFinished { result } && next
                == Phase::Done { outcome: result })
            ||| (phase matches Phase::Checking { outcome } && next == Phase::Done { outcome })
        }),
{
}

} // verus!

