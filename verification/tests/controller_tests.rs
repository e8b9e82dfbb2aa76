use wrangler_lifecycle::command::{Command, InvocationContext};
use wrangler_lifecycle::controller::{step, Action, Event, Phase};
use wrangler_lifecycle::detect::Mode;
use wrangler_lifecycle::dispatch::HandlerCall;
use wrangler_lifecycle::Outcome;

fn ctx() -> InvocationContext {
    InvocationContext { environment: None, verbose: false }
}

#[test]
fn installer_stub_runs_installer_and_skips_dispatch_and_update_check() {
    // Executable named `wrangler-init-x86_64`: the installer path is taken,
    // its result becomes the process outcome, the update checker never runs.
    let (p, a) = step(
        Phase::Start,
        Event::Invoked {
            exe_path: Some(String::from("wrangler-init-x86_64")),
            debug_build: false,
        },
    )
    .unwrap();
    assert_eq!(p, Phase::Initializing { mode: Mode::Installer });
    assert_eq!(a, Action::InitFacilities { error_reporting: true });

    let (p, a) = step(p, Event::FacilitiesReady).unwrap();
    assert_eq!(p, Phase::Installing);
    assert_eq!(a, Action::RunInstaller);

    let failure = Outcome::Failure { message: String::from("download failed") };
    let (p, a) = step(p, Event::InstallerFinished { result: failure.clone() }).unwrap();
    assert_eq!(p, Phase::Done { outcome: failure });
    assert_eq!(a, Action::Exit { code: 1 });

    // Terminal: nothing more can run.
    assert!(step(p, Event::UpdateCheckFinished { succeeded: true }).is_none());
}

#[test]
fn installer_success_is_the_outcome() {
    let (p, _) = step(
        Phase::Start,
        Event::Invoked { exe_path: Some(String::from("wrangler-init")), debug_build: false },
    )
    .unwrap();
    let (p, _) = step(p, Event::FacilitiesReady).unwrap();
    let (p, a) = step(p, Event::InstallerFinished { result: Outcome::Success }).unwrap();
    assert_eq!(p, Phase::Done { outcome: Outcome::Success });
    assert_eq!(a, Action::Exit { code: 0 });
}

#[test]
fn logout_dispatches_then_update_check_then_exit_zero() {
    // Executable named `wrangler` with a logout command: the dispatcher
    // invokes the logout handler only; on its success the update checker
    // runs; the process exits with code 0.
    let (p, a) = step(
        Phase::Start,
        Event::Invoked { exe_path: Some(String::from("wrangler")), debug_build: false },
    )
    .unwrap();
    assert_eq!(p, Phase::Initializing { mode: Mode::Normal });
    assert_eq!(a, Action::InitFacilities { error_reporting: true });

    let (p, a) = step(p, Event::FacilitiesReady).unwrap();
    assert_eq!(p, Phase::AwaitingCommand);
    assert_eq!(a, Action::ParseCommand);

    let (p, a) = step(p, Event::CommandParsed { cmd: Command::Logout, ctx: ctx() }).unwrap();
    assert_eq!(p, Phase::Dispatching { report: false });
    assert_eq!(a, Action::RunHandler { call: HandlerCall::Logout, ctx: ctx() });

    let (p, a) = step(p, Event::HandlerFinished { result: Outcome::Success }).unwrap();
    assert_eq!(p, Phase::Checking { outcome: Outcome::Success });
    assert_eq!(a, Action::CheckUpdates { confirm_report: false });

    let (p, a) = step(p, Event::UpdateCheckFinished { succeeded: true }).unwrap();
    assert_eq!(p, Phase::Done { outcome: Outcome::Success });
    assert_eq!(a, Action::Exit { code: 0 });
}

#[test]
fn failing_build_still_checks_updates_and_exits_nonzero() {
    // A failing build handler: the process outcome is that failure, the
    // update checker still runs afterwards, and the exit code is nonzero.
    let (p, _) = step(
        Phase::Start,
        Event::Invoked { exe_path: Some(String::from("/usr/bin/wrangler")), debug_build: false },
    )
    .unwrap();
    let (p, _) = step(p, Event::FacilitiesReady).unwrap();
    let (p, a) = step(p, Event::CommandParsed { cmd: Command::Build, ctx: ctx() }).unwrap();
    assert_eq!(a, Action::RunHandler { call: HandlerCall::Build, ctx: ctx() });

    let failure = Outcome::Failure { message: String::from("build broke") };
    let (p, a) = step(p, Event::HandlerFinished { result: failure.clone() }).unwrap();
    assert_eq!(a, Action::CheckUpdates { confirm_report: false });
    assert_eq!(p, Phase::Checking { outcome: failure.clone() });

    let (p, a) = step(p, Event::UpdateCheckFinished { succeeded: false }).unwrap();
    assert_eq!(p, Phase::Done { outcome: failure });
    assert_eq!(a, Action::Exit { code: 1 });
}

#[test]
fn update_check_runs_after_success_and_after_failure() {
    // Same observed post-step for a succeeding and for a failing handler.
    let (_, a) = step(
        Phase::Dispatching { report: false },
        Event::HandlerFinished { result: Outcome::Success },
    )
    .unwrap();
    assert!(matches!(a, Action::CheckUpdates { .. }));

    let (_, a) = step(
        Phase::Dispatching { report: false },
        Event::HandlerFinished { result: Outcome::Failure { message: String::from("x") } },
    )
    .unwrap();
    assert!(matches!(a, Action::CheckUpdates { .. }));
}

#[test]
fn failing_update_check_changes_neither_outcome_nor_message() {
    let (p, a) = step(
        Phase::Checking { outcome: Outcome::Success },
        Event::UpdateCheckFinished { succeeded: false },
    )
    .unwrap();
    assert_eq!(p, Phase::Done { outcome: Outcome::Success });
    assert_eq!(a, Action::Exit { code: 0 });

    let failure = Outcome::Failure { message: String::from("original message") };
    let (p, a) = step(
        Phase::Checking { outcome: failure.clone() },
        Event::UpdateCheckFinished { succeeded: false },
    )
    .unwrap();
    assert_eq!(p, Phase::Done { outcome: failure });
    assert_eq!(a, Action::Exit { code: 1 });
}

#[test]
fn report_success_triggers_confirmation_before_update_check() {
    // The crash-report handler succeeds: the fixed confirmation message is
    // emitted in addition to the handler's own output.
    let (p, a) = step(
        Phase::AwaitingCommand,
        Event::CommandParsed { cmd: Command::Report { log: None }, ctx: ctx() },
    )
    .unwrap();
    assert_eq!(p, Phase::Dispatching { report: true });
    assert_eq!(a, Action::RunHandler { call: HandlerCall::Report { log: None }, ctx: ctx() });

    let (_, a) = step(p, Event::HandlerFinished { result: Outcome::Success }).unwrap();
    assert_eq!(a, Action::CheckUpdates { confirm_report: true });
}

#[test]
fn report_failure_triggers_no_confirmation() {
    let (_, a) = step(
        Phase::Dispatching { report: true },
        Event::HandlerFinished { result: Outcome::Failure { message: String::from("no") } },
    )
    .unwrap();
    assert_eq!(a, Action::CheckUpdates { confirm_report: false });
}

#[test]
fn debug_build_skips_error_reporting_setup() {
    let (_, a) = step(
        Phase::Start,
        Event::Invoked { exe_path: Some(String::from("wrangler")), debug_build: true },
    )
    .unwrap();
    assert_eq!(a, Action::InitFacilities { error_reporting: false });
}

#[test]
fn undetermined_exe_path_still_dispatches() {
    let (p, _) = step(Phase::Start, Event::Invoked { exe_path: None, debug_build: false }).unwrap();
    assert_eq!(p, Phase::Initializing { mode: Mode::Normal });
    let (p, a) = step(p, Event::FacilitiesReady).unwrap();
    assert_eq!(p, Phase::AwaitingCommand);
    assert_eq!(a, Action::ParseCommand);
}

#[test]
fn mismatched_events_are_refused() {
    assert!(step(Phase::Start, Event::FacilitiesReady).is_none());
    assert!(step(Phase::Installing, Event::FacilitiesReady).is_none());
    assert!(
        step(
            Phase::AwaitingCommand,
            Event::HandlerFinished { result: Outcome::Success }
        )
        .is_none()
    );
    assert!(
        step(
            Phase::Done { outcome: Outcome::Success },
            Event::UpdateCheckFinished { succeeded: true }
        )
        .is_none()
    );
}
