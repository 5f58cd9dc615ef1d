use vstd::prelude::*;

verus! {

/// The build tools that can govern a project tree.
#[derive(Debug, Clone, Copy, PartialEq, Eq, Structural)]
pub enum BuildSystem {
    Make,
    CMake,
    Meson,
}

/// Debug or optimised builds; also selects the build directory.
#[derive(Debug, Clone, Copy, PartialEq, Eq, Structural)]
pub enum BuildMode {
    Debug,
    Release,
}

/// The subcommands, without their arguments.
#[derive(Debug, Clone, Copy, PartialEq, Eq, Structural)]
pub enum SubcommandKind {
    Build,
    Run,
    Clean,
    Install,
}

/// How an external process failed.
#[derive(Debug, Clone, Copy, PartialEq, Eq, Structural)]
pub enum ProcessFailure {
    /// The process could not be started.
    Spawn,
    /// Waiting for the process failed.
    Wait,
    /// The process ended without an exit code (a signal).
    Killed,
    /// The process exited with a non-zero code.
    Exited(i32),
}

/// The external commands that a plan can run; names the command an error comes from.
#[derive(Debug, Clone, Copy, PartialEq, Eq, Structural)]
pub enum Step {
    MakeBuild,
    MesonSetup,
    MesonCompile,
    Execute,
    MakeClean,
    MesonClean,
    MakeInstall,
    MesonConfigure,
    MesonInstall,
}

/// Every way an invocation of the tool can fail.
#[derive(Debug, Clone, Copy, PartialEq, Eq, Structural)]
pub enum TapError {
    /// No build-system marker in the working directory or any ancestor.
    DetectionFailure,
    /// The selected build system has no backend.
    Unsupported,
    /// The user declined to install a debug build.
    UserAbort,
    /// An external command failed.
    Command { step: Step, failure: ProcessFailure },
    /// The build setup failed, and removing its partial directory failed too.
    CleanupFailed { failure: ProcessFailure },
    /// The user's executable directory is unknown.
    NoExecutableDir,
    /// The user's executable directory has no parent.
    NoExecutableDirParent,
}

/// A program name with its ordered arguments.
#[derive(Debug, PartialEq, Eq)]
pub struct Invocation {
    pub program: String,
    pub args: Vec<String>,
}

/// The strings of an invocation.
pub struct InvocationView {
    pub program: Seq<char>,
    pub args: Seq<Seq<char>>,
}

/// The strings of `v`.
pub open spec fn strings_view(v: Seq<String>) -> Seq<Seq<char>> {
    v.map_values(|a: String| a@)
}

impl View for Invocation {
    type V = InvocationView;

    open spec fn view(&self) -> InvocationView {
        InvocationView { program: self.program@, args: strings_view(self.args@) }
    }
}

impl Step {
    /// Whether the step belongs to building the project.
    pub open spec fn is_build_step(self) -> bool {
        self is MakeBuild || self is MesonSetup || self is MesonCompile
    }
}

impl TapError {
    /// Whether the error arose in the build step that `run` and `install`
    /// perform before their own steps; such errors are reported as failures
    /// to build the binary.
    pub fn is_build_failure_of(&self, kind: SubcommandKind) -> (r: bool)
        ensures
            r == ((kind == SubcommandKind::Run || kind == SubcommandKind::Install)
                && self is Command && self->Command_step.is_build_step()),
    {
        let runs_build_first = match kind {
            SubcommandKind::Run | SubcommandKind::Install => true,
            _ => false,
        };
        match self {
            TapError::Command { step, .. } => runs_build_first && match step {
                Step::MakeBuild | Step::MesonSetup | Step::MesonCompile => true,
                _ => false,
            },
            _ => false,
        }
    }
}

} // verus!
