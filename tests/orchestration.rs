use tap::{
    Action, BuildMode, BuildSystem, Event, Invocation, Orchestrator, ProcessFailure, Step,
    Subcommand, SubcommandKind, TapError,
};

const DIR: &str = "/p/.tap_build_debug";

fn inv(program: &str, args: &[&str]) -> Action {
    Action::Run(Invocation {
        program: program.to_string(),
        args: args.iter().map(|a| a.to_string()).collect(),
    })
}

fn plan(sub: Subcommand, system: BuildSystem, mode: BuildMode) -> Orchestrator {
    Orchestrator::new(sub, system, mode, 4, DIR.to_string())
}

fn ok() -> Event {
    Event::Command(Ok(()))
}

fn failed(code: i32) -> Event {
    Event::Command(Err(ProcessFailure::Exited(code)))
}

#[test]
fn make_build_debug() {
    let mut o = plan(Subcommand::Build, BuildSystem::Make, BuildMode::Debug);
    assert_eq!(o.step(Event::Start), inv("make", &["-j", "4"]));
    assert_eq!(o.step(ok()), Action::Finish(Ok(())));
}

#[test]
fn make_build_release() {
    let mut o = plan(Subcommand::Build, BuildSystem::Make, BuildMode::Release);
    assert_eq!(o.step(Event::Start), inv("make", &["CFLAGS=-O3", "-j", "4"]));
    assert_eq!(o.step(failed(2)), Action::Finish(Err(TapError::Command { step: Step::MakeBuild, failure: ProcessFailure::Exited(2) })));
}

#[test]
fn meson_build_sets_up_once() {
    let mut o = plan(Subcommand::Build, BuildSystem::Meson, BuildMode::Debug);
    assert_eq!(o.step(Event::Start), Action::CheckBuildDir);
    assert_eq!(o.step(Event::DirExists(false)), inv("meson", &["setup", "--buildtype=debug", DIR]));
    assert_eq!(o.step(ok()), inv("meson", &["compile", "-C", DIR, "-j", "4"]));
    assert_eq!(o.step(ok()), Action::Finish(Ok(())));
}

#[test]
fn meson_build_reuses_existing_directory() {
    let mut o = plan(Subcommand::Build, BuildSystem::Meson, BuildMode::Release);
    assert_eq!(o.step(Event::Start), Action::CheckBuildDir);
    assert_eq!(o.step(Event::DirExists(true)), inv("meson", &["compile", "-C", DIR, "-j", "4"]));
    assert_eq!(o.step(failed(1)), Action::Finish(Err(TapError::Command { step: Step::MesonCompile, failure: ProcessFailure::Exited(1) })));
}

#[test]
fn failed_setup_removes_partial_directory() {
    let mut o = plan(Subcommand::Build, BuildSystem::Meson, BuildMode::Release);
    o.step(Event::Start);
    assert_eq!(o.step(Event::DirExists(false)), inv("meson", &["setup", "--buildtype=release", DIR]));
    assert_eq!(o.step(Event::Command(Err(ProcessFailure::Killed))), Action::CheckBuildDir);
    assert_eq!(o.step(Event::DirExists(true)), Action::RemoveBuildDir);
    assert_eq!(o.step(Event::Removed(true)), Action::Finish(Err(TapError::Command { step: Step::MesonSetup, failure: ProcessFailure::Killed })));
}

#[test]
fn failed_setup_without_residue_removes_nothing() {
    let mut o = plan(Subcommand::Build, BuildSystem::Meson, BuildMode::Debug);
    o.step(Event::Start);
    o.step(Event::DirExists(false));
    assert_eq!(o.step(Event::Command(Err(ProcessFailure::Spawn))), Action::CheckBuildDir);
    assert_eq!(o.step(Event::DirExists(false)), Action::Finish(Err(TapError::Command { step: Step::MesonSetup, failure: ProcessFailure::Spawn })));
}

#[test]
fn failed_cleanup_is_reported() {
    let mut o = plan(Subcommand::Build, BuildSystem::Meson, BuildMode::Debug);
    o.step(Event::Start);
    o.step(Event::DirExists(false));
    o.step(failed(3));
    o.step(Event::DirExists(true));
    assert_eq!(o.step(Event::Removed(false)), Action::Finish(Err(TapError::CleanupFailed { failure: ProcessFailure::Exited(3) })));
}

#[test]
fn cmake_is_unsupported() {
    for sub in [Subcommand::Build, Subcommand::Clean, Subcommand::Install { prefix: None }] {
        let mut o = plan(sub, BuildSystem::CMake, BuildMode::Release);
        assert_eq!(o.step(Event::Start), Action::Finish(Err(TapError::Unsupported)));
    }
}

#[test]
fn clean_commands() {
    let mut o = plan(Subcommand::Clean, BuildSystem::Make, BuildMode::Debug);
    assert_eq!(o.step(Event::Start), inv("make", &["clean"]));
    assert_eq!(o.step(ok()), Action::Finish(Ok(())));
    let mut o = plan(Subcommand::Clean, BuildSystem::Meson, BuildMode::Debug);
    assert_eq!(o.step(Event::Start), inv("meson", &["compile", "-C", DIR, "--clean"]));
    assert_eq!(o.step(failed(1)), Action::Finish(Err(TapError::Command { step: Step::MesonClean, failure: ProcessFailure::Exited(1) })));
}

#[test]
fn run_builds_first_then_runs() {
    let sub = Subcommand::Run { executable: "./app".to_string(), args: vec!["x".to_string(), "y z".to_string()] };
    let mut o = plan(sub, BuildSystem::Make, BuildMode::Debug);
    assert_eq!(o.step(Event::Start), inv("make", &["-j", "4"]));
    assert_eq!(o.step(ok()), inv("./app", &["x", "y z"]));
    assert_eq!(o.step(failed(5)), Action::Finish(Err(TapError::Command { step: Step::Execute, failure: ProcessFailure::Exited(5) })));
}

#[test]
fn run_does_not_run_after_failed_build() {
    let sub = Subcommand::Run { executable: "app".to_string(), args: vec![] };
    let mut o = plan(sub, BuildSystem::Make, BuildMode::Debug);
    o.step(Event::Start);
    assert_eq!(o.step(failed(2)), Action::Finish(Err(TapError::Command { step: Step::MakeBuild, failure: ProcessFailure::Exited(2) })));
}

#[test]
fn meson_run_resolves_in_build_directory() {
    let sub = Subcommand::Run { executable: "app".to_string(), args: vec!["-v".to_string()] };
    let mut o = plan(sub, BuildSystem::Meson, BuildMode::Debug);
    o.step(Event::Start);
    o.step(Event::DirExists(true));
    assert_eq!(o.step(ok()), inv("/p/.tap_build_debug/app", &["-v"]));
    assert_eq!(o.step(ok()), Action::Finish(Ok(())));
}

#[test]
fn debug_install_declined_aborts() {
    let mut o = plan(Subcommand::Install { prefix: None }, BuildSystem::Make, BuildMode::Debug);
    o.step(Event::Start);
    assert_eq!(o.step(ok()), Action::AskConfirm);
    assert_eq!(o.step(Event::Confirmed(false)), Action::Finish(Err(TapError::UserAbort)));
}

#[test]
fn debug_install_confirmed_installs() {
    let mut o = plan(Subcommand::Install { prefix: Some("/opt/p".to_string()) }, BuildSystem::Make, BuildMode::Debug);
    o.step(Event::Start);
    assert_eq!(o.step(ok()), Action::AskConfirm);
    assert_eq!(o.step(Event::Confirmed(true)), inv("make", &["install", "PREFIX=/opt/p"]));
    assert_eq!(o.step(ok()), Action::Finish(Ok(())));
}

#[test]
fn release_install_with_explicit_prefix() {
    let mut o = plan(Subcommand::Install { prefix: Some("/opt/p".to_string()) }, BuildSystem::Make, BuildMode::Release);
    assert_eq!(o.step(Event::Start), inv("make", &["CFLAGS=-O3", "-j", "4"]));
    assert_eq!(o.step(ok()), inv("make", &["install", "PREFIX=/opt/p"]));
    assert_eq!(o.step(failed(1)), Action::Finish(Err(TapError::Command { step: Step::MakeInstall, failure: ProcessFailure::Exited(1) })));
}

#[test]
fn meson_install_resolves_prefix_then_configures() {
    let mut o = plan(Subcommand::Install { prefix: None }, BuildSystem::Meson, BuildMode::Release);
    o.step(Event::Start);
    o.step(Event::DirExists(true));
    assert_eq!(o.step(ok()), Action::ResolvePrefix);
    assert_eq!(o.step(Event::Prefix(Ok("/usr/local".to_string()))), inv("meson", &["configure", "-D", "prefix=/usr/local", DIR]));
    assert_eq!(o.step(ok()), inv("meson", &["install", "-C", DIR]));
    assert_eq!(o.step(ok()), Action::Finish(Ok(())));
}

#[test]
fn meson_install_stops_after_failed_configure() {
    let mut o = plan(Subcommand::Install { prefix: Some("/x".to_string()) }, BuildSystem::Meson, BuildMode::Release);
    o.step(Event::Start);
    o.step(Event::DirExists(true));
    o.step(ok());
    assert_eq!(o.step(failed(1)), Action::Finish(Err(TapError::Command { step: Step::MesonConfigure, failure: ProcessFailure::Exited(1) })));
}

#[test]
fn install_prefix_failure_aborts() {
    let mut o = plan(Subcommand::Install { prefix: None }, BuildSystem::Make, BuildMode::Release);
    o.step(Event::Start);
    assert_eq!(o.step(ok()), Action::ResolvePrefix);
    assert_eq!(o.step(Event::Prefix(Err(TapError::NoExecutableDir))), Action::Finish(Err(TapError::NoExecutableDir)));
}

#[test]
fn install_does_not_install_after_failed_build() {
    let mut o = plan(Subcommand::Install { prefix: None }, BuildSystem::Meson, BuildMode::Debug);
    o.step(Event::Start);
    o.step(Event::DirExists(true));
    assert_eq!(o.step(failed(9)), Action::Finish(Err(TapError::Command { step: Step::MesonCompile, failure: ProcessFailure::Exited(9) })));
}

#[test]
fn build_failures_of_run_and_install_are_told_apart() {
    let build = TapError::Command { step: Step::MesonSetup, failure: ProcessFailure::Killed };
    let own = TapError::Command { step: Step::Execute, failure: ProcessFailure::Killed };
    assert!(build.is_build_failure_of(SubcommandKind::Run));
    assert!(build.is_build_failure_of(SubcommandKind::Install));
    assert!(!build.is_build_failure_of(SubcommandKind::Build));
    assert!(!own.is_build_failure_of(SubcommandKind::Run));
    assert!(!TapError::UserAbort.is_build_failure_of(SubcommandKind::Install));
}
