use vstd::prelude::*;

use crate::commands::{
    execute, execute_inv, make_build, make_build_inv, make_clean, make_clean_inv, make_install,
    make_install_inv, meson_clean, meson_clean_inv, meson_compile, meson_compile_inv,
    meson_configure, meson_configure_inv, meson_install, meson_install_inv, meson_setup,
    meson_setup_inv,
};
use crate::model::{
    strings_view, BuildMode, BuildSystem, Invocation, InvocationView, ProcessFailure, Step,
    SubcommandKind, TapError,
};
use crate::prefix::{opt_view, result_view};

verus! {

/// A subcommand with its arguments.
#[derive(Debug, PartialEq, Eq)]
pub enum Subcommand {
    /// Build the project.
    Build,
    /// Build, then run an executable of the project with arguments.
    Run { executable: String, args: Vec<String> },
    /// Remove build products.
    Clean,
    /// Build, then install, into `prefix` when given.
    Install { prefix: Option<String> },
}

/// Where a plan stands: the answer it waits for.
#[derive(Debug, Clone, Copy, PartialEq, Eq, Structural)]
pub enum Phase {
    /// Nothing has happened yet.
    Start,
    /// Waits to learn whether the build directory exists.
    AwaitDirCheck,
    /// Waits for `meson setup`.
    AwaitSetup,
    /// Setup failed; waits to learn whether it left a directory behind.
    AwaitResidueCheck(ProcessFailure),
    /// Setup failed; waits for its partial directory to be removed.
    AwaitRemoval(ProcessFailure),
    /// Waits for the compile step of the build.
    AwaitCompile,
    /// Waits for the user to confirm installing a debug build.
    AwaitConfirm,
    /// Waits for the default install prefix.
    AwaitPrefix,
    /// Waits for `meson configure`.
    AwaitConfigure,
    /// Waits for the subcommand's last command.
    AwaitFinalStep,
    /// Finished.
    Done,
}

/// The answer to the last action.
#[derive(Debug, PartialEq, Eq)]
pub enum Event {
    /// Begin the plan.
    Start,
    /// Whether the build directory exists.
    DirExists(bool),
    /// How the command ended.
    Command(Result<(), ProcessFailure>),
    /// Whether removing the build directory succeeded.
    Removed(bool),
    /// Whether the user confirmed.
    Confirmed(bool),
    /// The default install prefix, or why it could not be found.
    Prefix(Result<String, TapError>),
}

/// The value of an event.
pub enum EventView {
    Start,
    DirExists(bool),
    Command(Result<(), ProcessFailure>),
    Removed(bool),
    Confirmed(bool),
    Prefix(Result<Seq<char>, TapError>),
}

impl View for Event {
    type V = EventView;

    open spec fn view(&self) -> EventView {
        match self {
            Event::Start => EventView::Start,
            Event::DirExists(b) => EventView::DirExists(*b),
            Event::Command(r) => EventView::Command(*r),
            Event::Removed(b) => EventView::Removed(*b),
            Event::Confirmed(b) => EventView::Confirmed(*b),
            Event::Prefix(r) => EventView::Prefix(result_view(*r)),
        }
    }
}

/// What the caller is to do next.
#[derive(Debug, PartialEq, Eq)]
pub enum Action {
    /// Check whether the build directory exists; answer `DirExists`.
    CheckBuildDir,
    /// Announce and run the command; answer `Command`.
    Run(Invocation),
    /// Remove the build directory recursively; answer `Removed`.
    RemoveBuildDir,
    /// Ask the user to confirm installing a debug build; answer `Confirmed`.
    AskConfirm,
    /// Resolve the default install prefix; answer `Prefix`.
    ResolvePrefix,
    /// The subcommand ended with this outcome.
    Finish(Result<(), TapError>),
}

/// The value of an action.
pub enum ActionView {
    CheckBuildDir,
    Run(InvocationView),
    RemoveBuildDir,
    AskConfirm,
    ResolvePrefix,
    Finish(Result<(), TapError>),
}

impl View for Action {
    type V = ActionView;

    open spec fn view(&self) -> ActionView {
        match self {
            Action::CheckBuildDir => ActionView::CheckBuildDir,
            Action::Run(i) => ActionView::Run(i@),
            Action::RemoveBuildDir => ActionView::RemoveBuildDir,
            Action::AskConfirm => ActionView::AskConfirm,
            Action::ResolvePrefix => ActionView::ResolvePrefix,
            Action::Finish(r) => ActionView::Finish(*r),
        }
    }
}

/// The plan of one subcommand on one build system: the dispatch of
/// subcommands to commands, and the build directory's setup and rollback.
pub struct Orchestrator {
    pub kind: SubcommandKind,
    pub system: BuildSystem,
    pub mode: BuildMode,
    pub n_jobs: usize,
    /// The build directory for the mode, under the project root.
    pub build_dir: String,
    /// For `Run`: the executable and its arguments.
    pub executable: String,
    pub args: Vec<String>,
    /// For `Install`: the explicit prefix.
    pub prefix: Option<String>,
    pub phase: Phase,
    /// Whether the build step has completed in this invocation.
    pub built: bool,
    /// Whether the build directory existed when it was checked before setup.
    pub dir_existed: bool,
}

/// The value of a plan.
pub struct OrchestratorView {
    pub kind: SubcommandKind,
    pub system: BuildSystem,
    pub mode: BuildMode,
    pub n_jobs: nat,
    pub build_dir: Seq<char>,
    pub executable: Seq<char>,
    pub args: Seq<Seq<char>>,
    pub prefix: Option<Seq<char>>,
    pub phase: Phase,
    pub built: bool,
    pub dir_existed: bool,
}

impl View for Orchestrator {
    type V = OrchestratorView;

    open spec fn view(&self) -> OrchestratorView {
        OrchestratorView {
            kind: self.kind,
            system: self.system,
            mode: self.mode,
            n_jobs: self.n_jobs as nat,
            build_dir: self.build_dir@,
            executable: self.executable@,
            args: strings_view(self.args@),
            prefix: opt_view(self.prefix),
            phase: self.phase,
            built: self.built,
            dir_existed: self.dir_existed,
        }
    }
}

/// Moves to `phase` and asks for `a`.
pub open spec fn go(s: OrchestratorView, phase: Phase, a: ActionView) -> (
    OrchestratorView,
    ActionView,
) {
    (OrchestratorView { phase, ..s }, a)
}

/// Ends with outcome `r`.
pub open spec fn finish(s: OrchestratorView, r: Result<(), TapError>) -> (
    OrchestratorView,
    ActionView,
) {
    go(s, Phase::Done, ActionView::Finish(r))
}

/// The command that compiles on a build system.
pub open spec fn compile_step(system: BuildSystem) -> Step {
    if system == BuildSystem::Meson {
        Step::MesonCompile
    } else {
        Step::MakeBuild
    }
}

/// The last command of a subcommand on a build system.
pub open spec fn final_step(kind: SubcommandKind, system: BuildSystem) -> Step {
    match kind {
        SubcommandKind::Run => Step::Execute,
        SubcommandKind::Clean => if system == BuildSystem::Meson {
            Step::MesonClean
        } else {
            Step::MakeClean
        },
        _ => if system == BuildSystem::Meson {
            Step::MesonInstall
        } else {
            Step::MakeInstall
        },
    }
}

/// The first move of the build step.
pub open spec fn build_start(s: OrchestratorView) -> (OrchestratorView, ActionView) {
    match s.system {
        BuildSystem::Make => go(
            s,
            Phase::AwaitCompile,
            ActionView::Run(make_build_inv(s.mode, s.n_jobs)),
        ),
        BuildSystem::CMake => finish(s, Err(TapError::Unsupported)),
        BuildSystem::Meson => go(s, Phase::AwaitDirCheck, ActionView::CheckBuildDir),
    }
}

/// The first move of a plan.
pub open spec fn start(s: OrchestratorView) -> (OrchestratorView, ActionView) {
    if s.kind == SubcommandKind::Clean {
        match s.system {
            BuildSystem::Make => go(s, Phase::AwaitFinalStep, ActionView::Run(make_clean_inv())),
            BuildSystem::CMake => finish(s, Err(TapError::Unsupported)),
            BuildSystem::Meson => go(
                s,
                Phase::AwaitFinalStep,
                ActionView::Run(meson_clean_inv(s.build_dir)),
            ),
        }
    } else {
        build_start(s)
    }
}

/// Installs into `prefix`.
pub open spec fn install_with(s: OrchestratorView, prefix: Seq<char>) -> (
    OrchestratorView,
    ActionView,
) {
    if s.system == BuildSystem::Meson {
        go(s, Phase::AwaitConfigure, ActionView::Run(meson_configure_inv(prefix, s.build_dir)))
    } else {
        go(s, Phase::AwaitFinalStep, ActionView::Run(make_install_inv(prefix)))
    }
}

/// Installing once confirmed: into the explicit prefix, else into the one resolved.
pub open spec fn after_confirm(s: OrchestratorView) -> (OrchestratorView, ActionView) {
    match s.prefix {
        Some(p) => install_with(s, p),
        None => go(s, Phase::AwaitPrefix, ActionView::ResolvePrefix),
    }
}

/// The move after a successful build.
pub open spec fn after_build(s: OrchestratorView) -> (OrchestratorView, ActionView) {
    match s.kind {
        SubcommandKind::Run => go(
            s,
            Phase::AwaitFinalStep,
            ActionView::Run(
                execute_inv(s.system == BuildSystem::Meson, s.build_dir, s.executable, s.args),
            ),
        ),
        SubcommandKind::Install => if s.mode == BuildMode::Debug {
            go(s, Phase::AwaitConfirm, ActionView::AskConfirm)
        } else {
            after_confirm(s)
        },
        _ => finish(s, Ok(())),
    }
}

/// Whether a plan in `phase` accepts `e`.
pub open spec fn expects(phase: Phase, e: EventView) -> bool {
    match phase {
        Phase::Start => e is Start,
        Phase::AwaitDirCheck => e is DirExists,
        Phase::AwaitSetup => e is Command,
        Phase::AwaitResidueCheck(_) => e is DirExists,
        Phase::AwaitRemoval(_) => e is Removed,
        Phase::AwaitCompile => e is Command,
        Phase::AwaitConfirm => e is Confirmed,
        Phase::AwaitPrefix => e is Prefix,
        Phase::AwaitConfigure => e is Command,
        Phase::AwaitFinalStep => e is Command,
        Phase::Done => false,
    }
}

/// The next state and action of a plan in state `s` on event `e`.
pub open spec fn transition(s: OrchestratorView, e: EventView) -> (OrchestratorView, ActionView) {
    match s.phase {
        Phase::Start => start(s),
        Phase::AwaitDirCheck => {
            let exists = e->DirExists_0;
            let t = OrchestratorView { dir_existed: exists, ..s };
            if exists {
                go(t, Phase::AwaitCompile, ActionView::Run(meson_compile_inv(s.build_dir, s.n_jobs)))
            } else {
                go(t, Phase::AwaitSetup, ActionView::Run(meson_setup_inv(s.mode, s.build_dir)))
            }
        },
        Phase::AwaitSetup => match e->Command_0 {
            Ok(_) => go(
                s,
                Phase::AwaitCompile,
                ActionView::Run(meson_compile_inv(s.build_dir, s.n_jobs)),
            ),
            Err(f) => go(s, Phase::AwaitResidueCheck(f), ActionView::CheckBuildDir),
        },
        Phase::AwaitResidueCheck(f) => if e->DirExists_0 {
            go(s, Phase::AwaitRemoval(f), ActionView::RemoveBuildDir)
        } else {
            finish(s, Err(TapError::Command { step: Step::MesonSetup, failure: f }))
        },
        Phase::AwaitRemoval(f) => if e->Removed_0 {
            finish(s, Err(TapError::Command { step: Step::MesonSetup, failure: f }))
        } else {
            finish(s, Err(TapError::CleanupFailed { failure: f }))
        },
        Phase::AwaitCompile => match e->Command_0 {
            Ok(_) => after_build(OrchestratorView { built: true, ..s }),
            Err(f) => finish(s, Err(TapError::Command { step: compile_step(s.system), failure: f })),
        },
        Phase::AwaitConfirm => if e->Confirmed_0 {
            after_confirm(s)
        } else {
            finish(s, Err(TapError::UserAbort))
        },
        Phase::AwaitPrefix => match e->Prefix_0 {
            Ok(p) => install_with(s, p),
            Err(err) => finish(s, Err(err)),
        },
        Phase::AwaitConfigure => match e->Command_0 {
            Ok(_) => go(s, Phase::AwaitFinalStep, ActionView::Run(meson_install_inv(s.build_dir))),
            Err(f) => finish(
                s,
                Err(TapError::Command { step: Step::MesonConfigure, failure: f }),
            ),
        },
        Phase::AwaitFinalStep => match e->Command_0 {
            Ok(_) => finish(s, Ok(())),
            Err(f) => finish(
                s,
                Err(TapError::Command { step: final_step(s.kind, s.system), failure: f }),
            ),
        },
        Phase::Done => (s, ActionView::Finish(Ok(()))),
    }
}

/// Whether `phase` belongs to the build step.
pub open spec fn is_build_phase(phase: Phase) -> bool {
    ||| phase is Start
    ||| phase is AwaitDirCheck
    ||| phase is AwaitSetup
    ||| phase is AwaitResidueCheck
    ||| phase is AwaitRemoval
    ||| phase is AwaitCompile
}

/// The invariant of a plan: each phase is reached only by the subcommands
/// and build systems that pass through it, and only once the steps before
/// it have succeeded.
pub open spec fn inv(s: OrchestratorView) -> bool {
    match s.phase {
        Phase::Start => !s.built,
        Phase::AwaitDirCheck => s.system == BuildSystem::Meson && s.kind != SubcommandKind::Clean
            && !s.built,
        Phase::AwaitSetup | Phase::AwaitResidueCheck(_) | Phase::AwaitRemoval(_) => s.system
            == BuildSystem::Meson && s.kind != SubcommandKind::Clean && !s.built && !s.dir_existed,
        Phase::AwaitCompile => s.system != BuildSystem::CMake && s.kind != SubcommandKind::Clean
            && !s.built,
        Phase::AwaitConfirm => s.kind == SubcommandKind::Install && s.system != BuildSystem::CMake
            && s.mode == BuildMode::Debug && s.built,
        Phase::AwaitPrefix => s.kind == SubcommandKind::Install && s.system != BuildSystem::CMake
            && s.prefix is None && s.built,
        Phase::AwaitConfigure => s.kind == SubcommandKind::Install && s.system
            == BuildSystem::Meson && s.built,
        Phase::AwaitFinalStep => s.system != BuildSystem::CMake && s.kind != SubcommandKind::Build
            && (s.kind == SubcommandKind::Clean || s.built),
        Phase::Done => true,
    }
}

/// The subcommand kind of a subcommand.
pub open spec fn kind_of(sub: Subcommand) -> SubcommandKind {
    match sub {
        Subcommand::Build => SubcommandKind::Build,
        Subcommand::Run { .. } => SubcommandKind::Run,
        Subcommand::Clean => SubcommandKind::Clean,
        Subcommand::Install { .. } => SubcommandKind::Install,
    }
}

impl Orchestrator {
    /// The plan of `sub` on `system` in `mode`, with `n_jobs` parallel jobs
    /// and the build directory `build_dir`, before its first move.
    pub fn new(
        sub: Subcommand,
        system: BuildSystem,
        mode: BuildMode,
        n_jobs: usize,
        build_dir: String,
    ) -> (r: Orchestrator)
        ensures
            r@.kind == kind_of(sub),
            r@.system == system,
            r@.mode == mode,
            r@.n_jobs == n_jobs,
            r@.build_dir == build_dir@,
            sub matches Subcommand::Run { executable, args } ==> r@.executable == executable@
                && r@.args == strings_view(args@),
            sub matches Subcommand::Install { prefix } ==> r@.prefix == opt_view(prefix),
            !(sub is Install) ==> r@.prefix is None,
            r@.phase == Phase::Start,
            !r@.built,
            !r@.dir_existed,
            inv(r@),
    {
        let (kind, executable, args, prefix) = match sub {
            Subcommand::Build => (SubcommandKind::Build, String::new(), Vec::new(), None),
            Subcommand::Run { executable, args } => (SubcommandKind::Run, executable, args, None),
            Subcommand::Clean => (SubcommandKind::Clean, String::new(), Vec::new(), None),
            Subcommand::Install { prefix } => (
                SubcommandKind::Install,
                String::new(),
                Vec::new(),
                prefix,
            ),
        };
        Orchestrator {
            kind,
            system,
            mode,
            n_jobs,
            build_dir,
            executable,
            args,
            prefix,
            phase: Phase::Start,
            built: false,
            dir_existed: false,
        }
    }

    fn go(&mut self, phase: Phase, a: Action) -> (r: Action)
        ensures
            (final(self)@, r@) == go(old(self)@, phase, a@),
    {
        self.phase = phase;
        a
    }

    fn finish(&mut self, r: Result<(), TapError>) -> (a: Action)
        ensures
            (final(self)@, a@) == finish(old(self)@, r),
    {
        self.go(Phase::Done, Action::Finish(r))
    }

    fn build_start(&mut self) -> (a: Action)
        ensures
            (final(self)@, a@) == build_start(old(self)@),
    {
        match self.system {
            BuildSystem::Make => {
                let cmd = make_build(self.mode, self.n_jobs);
                self.go(Phase::AwaitCompile, Action::Run(cmd))
            },
            BuildSystem::CMake => self.finish(Err(TapError::Unsupported)),
            BuildSystem::Meson => self.go(Phase::AwaitDirCheck, Action::CheckBuildDir),
        }
    }

    fn start(&mut self) -> (a: Action)
        ensures
            (final(self)@, a@) == start(old(self)@),
    {
        if self.kind == SubcommandKind::Clean {
            match self.system {
                BuildSystem::Make => self.go(Phase::AwaitFinalStep, Action::Run(make_clean())),
                BuildSystem::CMake => self.finish(Err(TapError::Unsupported)),
                BuildSystem::Meson => {
                    let cmd = meson_clean(&self.build_dir);
                    self.go(Phase::AwaitFinalStep, Action::Run(cmd))
                },
            }
        } else {
            self.build_start()
        }
    }

    fn install_with(&mut self, prefix: &String) -> (a: Action)
        ensures
            (final(self)@, a@) == install_with(old(self)@, prefix@),
    {
        if self.system == BuildSystem::Meson {
            let cmd = meson_configure(prefix, &self.build_dir);
            self.go(Phase::AwaitConfigure, Action::Run(cmd))
        } else {
            self.go(Phase::AwaitFinalStep, Action::Run(make_install(prefix)))
        }
    }

    fn after_confirm(&mut self) -> (a: Action)
        ensures
            (final(self)@, a@) == after_confirm(old(self)@),
    {
        match &self.prefix {
            Some(p) => {
                let p = p.clone();
                self.install_with(&p)
            },
            None => self.go(Phase::AwaitPrefix, Action::ResolvePrefix),
        }
    }

    fn after_build(&mut self) -> (a: Action)
        ensures
            (final(self)@, a@) == after_build(old(self)@),
    {
        match self.kind {
            SubcommandKind::Run => {
                let cmd = execute(
                    self.system == BuildSystem::Meson,
                    &self.build_dir,
                    &self.executable,
                    &self.args,
                );
                self.go(Phase::AwaitFinalStep, Action::Run(cmd))
            },
            SubcommandKind::Install => if self.mode == BuildMode::Debug {
                self.go(Phase::AwaitConfirm, Action::AskConfirm)
            } else {
                self.after_confirm()
            },
            _ => self.finish(Ok(())),
        }
    }

    /// Advances the plan on the answer `ev` to its last action, and returns
    /// the next action.
    pub fn step(&mut self, ev: Event) -> (a: Action)
        requires
            inv(old(self)@),
            expects(old(self).phase, ev@),
        ensures
            (final(self)@, a@) == transition(old(self)@, ev@),
            inv(final(self)@),
    {
        match self.phase {
            Phase::Start => self.start(),
            Phase::AwaitDirCheck => {
                let exists = match ev {
                    Event::DirExists(b) => b,
                    _ => return Action::Finish(Ok(())),
                };
                self.dir_existed = exists;
                if exists {
                    let cmd = meson_compile(&self.build_dir, self.n_jobs);
                    self.go(Phase::AwaitCompile, Action::Run(cmd))
                } else {
                    let cmd = meson_setup(self.mode, &self.build_dir);
                    self.go(Phase::AwaitSetup, Action::Run(cmd))
                }
            },
            Phase::AwaitSetup => match ev {
                Event::Command(Ok(())) => {
                    let cmd = meson_compile(&self.build_dir, self.n_jobs);
                    self.go(Phase::AwaitCompile, Action::Run(cmd))
                },
                Event::Command(Err(f)) => self.go(
                    Phase::AwaitResidueCheck(f),
                    Action::CheckBuildDir,
                ),
                _ => Action::Finish(Ok(())),
            },
            Phase::AwaitResidueCheck(f) => match ev {
                Event::DirExists(true) => self.go(Phase::AwaitRemoval(f), Action::RemoveBuildDir),
                _ => self.finish(Err(TapError::Command { step: Step::MesonSetup, failure: f })),
            },
            Phase::AwaitRemoval(f) => match ev {
                Event::Removed(true) => self.finish(
                    Err(TapError::Command { step: Step::MesonSetup, failure: f }),
                ),
                _ => self.finish(Err(TapError::CleanupFailed { failure: f })),
            },
            Phase::AwaitCompile => match ev {
                Event::Command(Ok(())) => {
                    self.built = true;
                    self.after_build()
                },
                Event::Command(Err(f)) => {
                    let step = if self.system == BuildSystem::Meson {
                        Step::MesonCompile
                    } else {
                        Step::MakeBuild
                    };
                    self.finish(Err(TapError::Command { step, failure: f }))
                },
                _ => Action::Finish(Ok(())),
            },
            Phase::AwaitConfirm => match ev {
                Event::Confirmed(true) => self.after_confirm(),
                _ => self.finish(Err(TapError::UserAbort)),
            },
            Phase::AwaitPrefix => match ev {
                Event::Prefix(Ok(p)) => self.install_with(&p),
                Event::Prefix(Err(err)) => self.finish(Err(err)),
                _ => Action::Finish(Ok(())),
            },
            Phase::AwaitConfigure => match ev {
                Event::Command(Ok(())) => {
                    let cmd = meson_install(&self.build_dir);
                    self.go(Phase::AwaitFinalStep, Action::Run(cmd))
                },
                Event::Command(Err(f)) => self.finish(
                    Err(TapError::Command { step: Step::MesonConfigure, failure: f }),
                ),
                _ => Action::Finish(Ok(())),
            },
            Phase::AwaitFinalStep => match ev {
                Event::Command(Ok(())) => self.finish(Ok(())),
                Event::Command(Err(f)) => {
                    let step = match self.kind {
                        SubcommandKind::Run => Step::Execute,
                        SubcommandKind::Clean => if self.system == BuildSystem::Meson {
                            Step::MesonClean
                        } else {
                            Step::MakeClean
                        },
                        _ => if self.system == BuildSystem::Meson {
                            Step::MesonInstall
                        } else {
                            Step::MakeInstall
                        },
                    };
                    self.finish(Err(TapError::Command { step, failure: f }))
                },
                _ => Action::Finish(Ok(())),
            },
            Phase::Done => Action::Finish(Ok(())),
        }
    }
}


/// The plan `s` taken as a plain build.
pub open spec fn as_build(s: OrchestratorView) -> OrchestratorView {
    OrchestratorView { kind: SubcommandKind::Build, ..s }
}

/// `run` and `install` go through the full build step first: while they
/// build, each move is the move a plain build makes; when the build fails
/// they fail with its error and take no step of their own; when it succeeds
/// they go on to their own steps. The build counts as done only once its
/// compile step has succeeded, and no step of their own comes before that.
pub proof fn lemma_build_runs_first(s: OrchestratorView, e: EventView)
    requires
        inv(s),
        expects(s.phase, e),
        s.kind == SubcommandKind::Run || s.kind == SubcommandKind::Install,
    ensures
        is_build_phase(s.phase) && (transition(as_build(s), e).1 is Finish && transition(as_build(s), e).1->Finish_0 is Err)
            ==> transition(s, e).1 == transition(as_build(s), e).1 && transition(s, e).0.phase
            is Done,
        is_build_phase(s.phase) && (transition(as_build(s), e).1 is Finish && transition(as_build(s), e).1->Finish_0 is Ok)
            ==> transition(s, e).0.built && !(transition(s, e).1 is Finish),
        is_build_phase(s.phase) && !(transition(as_build(s), e).1 is Finish) ==> transition(s, e).1
            == transition(as_build(s), e).1 && transition(s, e).0 == (OrchestratorView {
            kind: s.kind,
            ..transition(as_build(s), e).0
        }),
        !is_build_phase(s.phase) && !(s.phase is Done) ==> s.built,
        !s.built && transition(s, e).0.built ==> s.phase is AwaitCompile && e is Command
            && e->Command_0 is Ok,
{
}

/// A failed setup leaves no residue: setup runs only when the build
/// directory was absent; its failure is followed by a check for a directory
/// left behind, which is then removed, and the setup error is raised again;
/// removal is asked only of a directory that was absent before setup.
pub proof fn lemma_setup_failure_leaves_no_residue(s: OrchestratorView, e: EventView)
    requires
        inv(s),
        expects(s.phase, e),
    ensures
        transition(s, e).0.phase is AwaitSetup ==> s.phase is AwaitDirCheck && e
            == EventView::DirExists(false) && !transition(s, e).0.dir_existed,
        transition(s, e).1 is RemoveBuildDir ==> !s.dir_existed && s.phase is AwaitResidueCheck
            && e == EventView::DirExists(true),
        s.phase is AwaitSetup && (e is Command && e->Command_0 is Err) ==> transition(s, e).1
            is CheckBuildDir,
        s.phase is AwaitResidueCheck && e == EventView::DirExists(true) ==> transition(s, e).1
            is RemoveBuildDir,
        s.phase is AwaitResidueCheck && e == EventView::DirExists(false) ==> transition(
            s,
            e,
        ).1 == ActionView::Finish(
            Err(TapError::Command { step: Step::MesonSetup, failure: s.phase->AwaitResidueCheck_0 }),
        ),
        s.phase is AwaitRemoval && e == EventView::Removed(true) ==> transition(s, e).1
            == ActionView::Finish(
            Err(TapError::Command { step: Step::MesonSetup, failure: s.phase->AwaitRemoval_0 }),
        ),
{
}

/// Installing a debug build asks for confirmation right after the build,
/// before any install command; declining ends the plan with a user abort,
/// and no command follows.
pub proof fn lemma_declined_debug_install_aborts(s: OrchestratorView, e: EventView)
    requires
        inv(s),
        expects(s.phase, e),
    ensures
        transition(s, e).0.phase is AwaitConfirm ==> s.phase is AwaitCompile && s.kind
            == SubcommandKind::Install && s.mode == BuildMode::Debug,
        s.phase is AwaitConfirm && e == EventView::Confirmed(false) ==> transition(s, e).1
            == ActionView::Finish(Err(TapError::UserAbort)) && transition(s, e).0.phase is Done,
        forall|e2: EventView| !expects(Phase::Done, e2),
{
}

} // verus!
