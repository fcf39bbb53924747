//! The order of the stages of a build or a run, and what the tool exits
//! with. Every stage runs only once the one before it has succeeded; the
//! first failure ends the invocation.
//!
//! The stages themselves are the caller's to perform: this module says
//! which comes next, and with which code to stop.

use vstd::prelude::*;
use crate::image::SynthesisError;
use crate::install::{InstallError, InstallErrorView};
use crate::registry::{ArchId, BootArtifactKind};

verus! {

/// What the tool is asked to do.
#[derive(Clone, Copy, Debug, PartialEq, Eq, Structural)]
pub enum Subcommand {
    /// Install the configuration and build.
    Build,
    /// Build, make the disk image and start the emulator.
    Run,
}

/// A stage of the pipeline.
#[derive(Clone, Copy, Debug, PartialEq, Eq, Structural)]
pub enum Stage {
    /// Copy the architecture's configuration into place.
    InstallConfig,
    /// Run the compiler.
    Compile,
    /// Convert the executable into a raw binary.
    Convert,
    /// Make the disk image.
    SynthesizeImage,
    /// Start the emulator.
    Launch,
}

/// Why an invocation ended early.
#[derive(Clone, Copy, Debug, PartialEq, Eq, Structural)]
pub enum Failure {
    UnsupportedArchitecture,
    ConfigNotFound,
    CopyFailed,
    /// The compiler did not succeed; its exit code, where there is one.
    CompileFailed(Option<i32>),
    /// The converter did not succeed; its exit code, where there is one.
    ConvertFailed(Option<i32>),
    ImageCreateFailed,
    FormatFailed,
    FileSystemWriteFailed,
    /// The emulator could not be started.
    LaunchFailed,
    /// The emulator ran and the guest did not succeed; the exit code, where
    /// there is one.
    GuestExitNonZero(Option<i32>),
}

/// An outside program that a stage runs.
#[derive(Clone, Copy, Debug, PartialEq, Eq, Structural)]
pub enum Tool {
    /// The compiler, run by the stage `Compile`.
    Compiler,
    /// The converter to a raw binary, run by the stage `Convert`.
    Converter,
    /// The emulator, run by the stage `Launch`.
    Emulator,
}

/// How a try to run an outside program ended.
#[derive(Clone, Copy, Debug, PartialEq, Eq, Structural)]
pub enum ProcessReport {
    /// The program could not be started.
    NotStarted,
    /// The program ran to its end, with this code where it left one.
    Exited { success: bool, code: Option<i32> },
}

/// What the caller does next.
#[derive(Clone, Copy, Debug, PartialEq, Eq, Structural)]
pub enum Action {
    /// Perform this stage and report how it went.
    Perform(Stage),
    /// Stop, with this exit code.
    Exit(i32),
}

/// The architecture that is built where none is named.
pub fn default_arch() -> (r: ArchId)
    ensures
        r == ArchId::Riscv64,
{
    ArchId::Riscv64
}

/// The stages of a subcommand, in order. The configuration goes first,
/// since the build reads it; the conversion belongs to the build of the
/// architectures that boot a raw binary; a run then makes the disk image
/// and starts the emulator last.
pub open spec fn stages_of(command: Subcommand, kind: BootArtifactKind) -> Seq<Stage> {
    let build = match kind {
        BootArtifactKind::RawBinary => seq![Stage::InstallConfig, Stage::Compile, Stage::Convert],
        BootArtifactKind::ElfExecutable => seq![Stage::InstallConfig, Stage::Compile],
    };
    match command {
        Subcommand::Build => build,
        Subcommand::Run => build + seq![Stage::SynthesizeImage, Stage::Launch],
    }
}

/// The stage that follows `done`, or the first one where nothing is done
/// yet; `None` after the last.
pub open spec fn following_of(command: Subcommand, kind: BootArtifactKind, done: Option<Stage>) -> Option<
    Stage,
> {
    match done {
        None => Some(Stage::InstallConfig),
        Some(Stage::InstallConfig) => Some(Stage::Compile),
        Some(Stage::Compile) => match kind {
            BootArtifactKind::RawBinary => Some(Stage::Convert),
            BootArtifactKind::ElfExecutable => match command {
                Subcommand::Build => None,
                Subcommand::Run => Some(Stage::SynthesizeImage),
            },
        },
        Some(Stage::Convert) => match command {
            Subcommand::Build => None,
            Subcommand::Run => Some(Stage::SynthesizeImage),
        },
        Some(Stage::SynthesizeImage) => match command {
            Subcommand::Build => None,
            Subcommand::Run => Some(Stage::Launch),
        },
        Some(Stage::Launch) => None,
    }
}

/// The code that a failure exits with: the code of the program that
/// failed, where it left one other than zero, and 1 otherwise.
pub open spec fn exit_code_of(failure: Failure) -> i32 {
    match failure {
        Failure::CompileFailed(Some(code)) | Failure::ConvertFailed(Some(code))
        | Failure::GuestExitNonZero(Some(code)) => if code != 0 {
            code
        } else {
            1
        },
        _ => 1,
    }
}

/// The program that a stage runs; `None` for a stage that runs none.
pub open spec fn tool_of(stage: Stage) -> Option<Tool> {
    match stage {
        Stage::Compile => Some(Tool::Compiler),
        Stage::Convert => Some(Tool::Converter),
        Stage::Launch => Some(Tool::Emulator),
        Stage::InstallConfig | Stage::SynthesizeImage => None,
    }
}

/// What is made of a report on a program: one that ran and succeeded is no
/// failure; one that ran and did not, or could not be started, is the
/// failure of its stage. An emulator that could not be started is told
/// apart from a guest that failed.
pub open spec fn process_verdict_of(tool: Tool, report: ProcessReport) -> Result<(), Failure> {
    match report {
        ProcessReport::Exited { success: true, code } => Ok(()),
        ProcessReport::Exited { success: false, code } => Err(
            match tool {
                Tool::Compiler => Failure::CompileFailed(code),
                Tool::Converter => Failure::ConvertFailed(code),
                Tool::Emulator => Failure::GuestExitNonZero(code),
            },
        ),
        ProcessReport::NotStarted => Err(
            match tool {
                Tool::Compiler => Failure::CompileFailed(None),
                Tool::Converter => Failure::ConvertFailed(None),
                Tool::Emulator => Failure::LaunchFailed,
            },
        ),
    }
}

/// What the caller does once `done` has ended with `outcome`: stop on a
/// failure, go on to the next stage after a success, stop with 0 after the
/// last.
pub open spec fn advance_of(
    command: Subcommand,
    kind: BootArtifactKind,
    done: Option<Stage>,
    outcome: Result<(), Failure>,
) -> Action {
    match outcome {
        Err(failure) => Action::Exit(exit_code_of(failure)),
        Ok(()) => match following_of(command, kind, done) {
            Some(stage) => Action::Perform(stage),
            None => Action::Exit(0),
        },
    }
}

/// The failure that an installation error amounts to.
pub open spec fn install_failure_of(error: InstallErrorView) -> Failure {
    match error {
        InstallErrorView::ConfigNotFound { .. } => Failure::ConfigNotFound,
        InstallErrorView::CopyFailed { .. } => Failure::CopyFailed,
    }
}

/// The failure that a synthesis error amounts to.
pub open spec fn synthesis_failure_of(error: SynthesisError) -> Failure {
    match error {
        SynthesisError::ImageCreateFailed => Failure::ImageCreateFailed,
        SynthesisError::FormatFailed => Failure::FormatFailed,
        SynthesisError::FileSystemWriteFailed => Failure::FileSystemWriteFailed,
    }
}

/// The stages of `command` for an architecture that boots from `kind`.
pub fn stages(command: Subcommand, kind: BootArtifactKind) -> (r: Vec<Stage>)
    ensures
        r@ == stages_of(command, kind),
{
    let mut r: Vec<Stage> = Vec::new();
    r.push(Stage::InstallConfig);
    r.push(Stage::Compile);
    match kind {
        BootArtifactKind::RawBinary => {
            r.push(Stage::Convert);
        },
        BootArtifactKind::ElfExecutable => {},
    }
    match command {
        Subcommand::Build => {},
        Subcommand::Run => {
            r.push(Stage::SynthesizeImage);
            r.push(Stage::Launch);
        },
    }
    assert(r@ =~= stages_of(command, kind));
    r
}

/// The stage that follows `done`; the first one where `done` is `None`.
pub fn following(command: Subcommand, kind: BootArtifactKind, done: Option<Stage>) -> (r: Option<Stage>)
    ensures
        r == following_of(command, kind, done),
{
    let run: bool = match command {
        Subcommand::Build => false,
        Subcommand::Run => true,
    };
    let raw: bool = match kind {
        BootArtifactKind::RawBinary => true,
        BootArtifactKind::ElfExecutable => false,
    };
    match done {
        None => Some(Stage::InstallConfig),
        Some(Stage::InstallConfig) => Some(Stage::Compile),
        Some(Stage::Compile) => if raw {
            Some(Stage::Convert)
        } else if run {
            Some(Stage::SynthesizeImage)
        } else {
            None
        },
        Some(Stage::Convert) => if run {
            Some(Stage::SynthesizeImage)
        } else {
            None
        },
        Some(Stage::SynthesizeImage) => if run {
            Some(Stage::Launch)
        } else {
            None
        },
        Some(Stage::Launch) => None,
    }
}

impl Failure {
    /// The code that the tool exits with on this failure.
    pub fn exit_code(self) -> (r: i32)
        ensures
            r == exit_code_of(self),
    {
        let code: Option<i32> = match self {
            Failure::CompileFailed(code) => code,
            Failure::ConvertFailed(code) => code,
            Failure::GuestExitNonZero(code) => code,
            _ => None,
        };
        match code {
            Some(code) => if code != 0 {
                code
            } else {
                1
            },
            None => 1,
        }
    }

    /// The failure that an installation error amounts to.
    pub fn of_install(error: &InstallError) -> (r: Failure)
        ensures
            r == install_failure_of(error@),
    {
        match error {
            InstallError::ConfigNotFound { .. } => Failure::ConfigNotFound,
            InstallError::CopyFailed { .. } => Failure::CopyFailed,
        }
    }

    /// The failure that a synthesis error amounts to.
    pub fn of_synthesis(error: SynthesisError) -> (r: Failure)
        ensures
            r == synthesis_failure_of(error),
    {
        match error {
            SynthesisError::ImageCreateFailed => Failure::ImageCreateFailed,
            SynthesisError::FormatFailed => Failure::FormatFailed,
            SynthesisError::FileSystemWriteFailed => Failure::FileSystemWriteFailed,
        }
    }
}

impl Stage {
    /// The program that this stage runs; `None` for a stage that runs none.
    pub fn tool(self) -> (r: Option<Tool>)
        ensures
            r == tool_of(self),
    {
        match self {
            Stage::Compile => Some(Tool::Compiler),
            Stage::Convert => Some(Tool::Converter),
            Stage::Launch => Some(Tool::Emulator),
            Stage::InstallConfig => None,
            Stage::SynthesizeImage => None,
        }
    }
}

/// Judges the report on a run of `tool`.
pub fn process_verdict(tool: Tool, report: ProcessReport) -> (r: Result<(), Failure>)
    ensures
        r == process_verdict_of(tool, report),
{
    match report {
        ProcessReport::Exited { success, code } => {
            if success {
                Ok(())
            } else {
                Err(
                    match tool {
                        Tool::Compiler => Failure::CompileFailed(code),
                        Tool::Converter => Failure::ConvertFailed(code),
                        Tool::Emulator => Failure::GuestExitNonZero(code),
                    },
                )
            }
        },
        ProcessReport::NotStarted => Err(
            match tool {
                Tool::Compiler => Failure::CompileFailed(None),
                Tool::Converter => Failure::ConvertFailed(None),
                Tool::Emulator => Failure::LaunchFailed,
            },
        ),
    }
}

/// What the caller does once the stage `done` has ended with `outcome`;
/// `done` is `None` and `outcome` is `Ok` at the start.
pub fn advance(
    command: Subcommand,
    kind: BootArtifactKind,
    done: Option<Stage>,
    outcome: Result<(), Failure>,
) -> (r: Action)
    ensures
        r == advance_of(command, kind, done, outcome),
{
    match outcome {
        Err(failure) => Action::Exit(failure.exit_code()),
        Ok(()) => match following(command, kind, done) {
            Some(stage) => Action::Perform(stage),
            None => Action::Exit(0),
        },
    }
}

/// No failure exits with 0.
pub proof fn failures_exit_nonzero(failure: Failure)
    ensures
        exit_code_of(failure) != 0,
{
}

/// A failure stops the invocation at once, with a code other than 0,
/// whatever stage it came from and whatever was still to do.
pub proof fn failure_stops_the_pipeline(
    command: Subcommand,
    kind: BootArtifactKind,
    done: Option<Stage>,
    failure: Failure,
)
    ensures
        advance_of(command, kind, done, Err(failure)) == Action::Exit(exit_code_of(failure)),
        advance_of(command, kind, done, Err(failure)) != Action::Exit(0),
{
}

/// Going from stage to stage while each succeeds performs exactly the
/// stages of the subcommand, in their order, and then stops with 0.
pub proof fn advancing_walks_the_stages(command: Subcommand, kind: BootArtifactKind)
    ensures
        ({
            let stages = stages_of(command, kind);
            &&& stages.len() >= 2
            &&& advance_of(command, kind, None, Ok(())) == Action::Perform(stages[0])
            &&& forall|i: int|
                0 <= i < stages.len() - 1 ==> advance_of(command, kind, Some(#[trigger] stages[i]), Ok(()))
                    == Action::Perform(stages[i + 1])
            &&& advance_of(command, kind, Some(stages.last()), Ok(())) == Action::Exit(0)
        }),
{
}

/// The configuration is installed before anything else; the executable is
/// converted exactly for the architectures that boot a raw binary; a build
/// neither makes the disk image nor starts the emulator; a run does both,
/// the emulator last.
pub proof fn stages_are_in_order(command: Subcommand, kind: BootArtifactKind)
    ensures
        ({
            let stages = stages_of(command, kind);
            &&& stages[0] == Stage::InstallConfig
            &&& stages[1] == Stage::Compile
            &&& stages.contains(Stage::Convert) <==> kind == BootArtifactKind::RawBinary
            &&& stages.contains(Stage::Convert) ==> stages[2] == Stage::Convert
            &&& stages.contains(Stage::SynthesizeImage) <==> command == Subcommand::Run
            &&& stages.contains(Stage::Launch) <==> command == Subcommand::Run
            &&& command == Subcommand::Run ==> stages.last() == Stage::Launch && stages[stages.len() - 2]
                == Stage::SynthesizeImage
        }),
{
    let stages = stages_of(command, kind);
    if kind == BootArtifactKind::RawBinary {
        assert(stages[2] == Stage::Convert);
    }
    if command == Subcommand::Run {
        assert(stages[stages.len() - 1] == Stage::Launch);
        assert(stages[stages.len() - 2] == Stage::SynthesizeImage);
    }
}

/// A program that was started and did not succeed is told apart from one
/// that could not be started, at the launch: the first is the guest's
/// failure, the second the launcher's.
pub proof fn launch_failures_are_told_apart(code: Option<i32>)
    ensures
        process_verdict_of(Tool::Emulator, ProcessReport::NotStarted) == Err::<(), Failure>(
            Failure::LaunchFailed,
        ),
        process_verdict_of(Tool::Emulator, ProcessReport::Exited { success: false, code }) == Err::<
            (),
            Failure,
        >(Failure::GuestExitNonZero(code)),
        Failure::LaunchFailed != Failure::GuestExitNonZero(code),
{
}

} // verus!
