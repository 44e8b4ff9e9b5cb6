//! What passes between the supervisor and its host: the host carries out one
//! `Action` at a time and reports the `Event` that came of it.

use crate::command::{Invocation, InvocationView};
use crate::config::ConfigError;
use crate::launch::{LaunchError, LaunchErrorView};
use crate::liveness::{LivenessReport, ProcessStatus};
use crate::path::{FsPath, PathView};
use crate::tools::{Tool, ToolNotFound};
use vstd::prelude::*;

verus! {

/// How far a startup has come. Each phase but `Idle` and `Running` waits for one
/// event.
#[derive(Clone, Copy, PartialEq, Eq, Structural, Debug)]
pub enum Phase {
    /// Nothing is under way and nothing runs.
    Idle,
    /// Waits for the probe of an interpreter candidate.
    FindingInterpreter,
    /// Waits for the probe of a dependency manager candidate.
    FindingDependencyManager,
    /// Waits to learn whether the configuration file exists.
    CheckingConfig,
    /// Waits to learn whether the configuration template exists.
    CheckingTemplate,
    /// Waits for the template to be copied.
    CopyingTemplate,
    /// Waits for the dependency synchronisation to end.
    Installing,
    /// Waits to learn whether the storage initialisation script exists.
    CheckingStorageScript,
    /// Waits for the storage initialisation to end.
    InitializingStorage,
    /// Waits to learn whether the runtime root still exists, before a worker launch.
    CheckingRuntimeRoot,
    /// Waits to learn whether the configuration file still exists, before a worker
    /// launch.
    CheckingLaunchConfig,
    /// Waits for a process to be spawned.
    Spawning,
    /// Waits out the pause that follows the spawn of a worker.
    Settling,
    /// Waits out the pause before the liveness sweep.
    AwaitingSweep,
    /// Waits for the status of one tracked process.
    Sweeping,
    /// The startup is complete; whatever was launched is tracked.
    Running,
}

/// How a program that was run to its end fared.
#[derive(Debug, PartialEq, Eq)]
pub enum RunOutcome {
    /// The program could not be launched.
    NotLaunched { reason: String },
    /// The program ran and exited.
    Finished { success: bool, stdout: String, stderr: String },
}

/// The mathematical value of a `RunOutcome`.
pub enum RunOutcomeView {
    NotLaunched { reason: Seq<char> },
    Finished { success: bool, stdout: Seq<char>, stderr: Seq<char> },
}

impl View for RunOutcome {
    type V = RunOutcomeView;

    open spec fn view(&self) -> RunOutcomeView {
        match self {
            RunOutcome::NotLaunched { reason } => RunOutcomeView::NotLaunched { reason: reason@ },
            RunOutcome::Finished { success, stdout, stderr } => RunOutcomeView::Finished {
                success: *success,
                stdout: stdout@,
                stderr: stderr@,
            },
        }
    }
}

impl RunOutcomeView {
    /// The program ran and exited with success.
    pub open spec fn succeeded(self) -> bool {
        self matches RunOutcomeView::Finished { success, .. } && success
    }

    /// The program ran, exited with success and wrote nothing to its error stream.
    pub open spec fn clean(self) -> bool {
        self matches RunOutcomeView::Finished { success, stderr, .. } && success && stderr.len()
            == 0
    }
}

impl RunOutcome {
    /// Whether the program ran and exited with success.
    pub fn succeeded(&self) -> (yes: bool)
        ensures
            yes == self@.succeeded(),
    {
        match self {
            RunOutcome::NotLaunched { .. } => false,
            RunOutcome::Finished { success, .. } => *success,
        }
    }

    /// Whether the program ran, exited with success and wrote nothing to its error
    /// stream.
    pub fn clean(&self) -> (yes: bool)
        ensures
            yes == self@.clean(),
    {
        match self {
            RunOutcome::NotLaunched { .. } => false,
            RunOutcome::Finished { success, stderr, .. } => {
                *success && stderr.as_str().unicode_len() == 0
            },
        }
    }
}

/// What the host reports back. `H` is the host's handle to a spawned process.
#[derive(Debug)]
pub enum Event<H> {
    /// A probe was made; `responded` says whether the candidate could be launched.
    Probed { responded: bool },
    /// A path was tested.
    Exists { present: bool },
    /// A file copy was attempted.
    Copied { done: bool },
    /// A program was run to its end.
    Ran(RunOutcome),
    /// A spawn was attempted: the new process, or why there is none.
    Spawned(Result<H, String>),
    /// A pause is over.
    Resumed,
    /// A tracked process was asked for its status.
    Polled(ProcessStatus),
}

/// The mathematical value of an `Event`.
pub enum EventView<H> {
    Probed { responded: bool },
    Exists { present: bool },
    Copied { done: bool },
    Ran(RunOutcomeView),
    Spawned(Result<H, Seq<char>>),
    Resumed,
    Polled(ProcessStatus),
}

impl<H> View for Event<H> {
    type V = EventView<H>;

    open spec fn view(&self) -> EventView<H> {
        match self {
            Event::Probed { responded } => EventView::Probed { responded: *responded },
            Event::Exists { present } => EventView::Exists { present: *present },
            Event::Copied { done } => EventView::Copied { done: *done },
            Event::Ran(outcome) => EventView::Ran(outcome@),
            Event::Spawned(Ok(handle)) => EventView::Spawned(Ok(*handle)),
            Event::Spawned(Err(reason)) => EventView::Spawned(Err(reason@)),
            Event::Resumed => EventView::Resumed,
            Event::Polled(status) => EventView::Polled(*status),
        }
    }
}

/// Why a startup was given up before anything was launched.
#[derive(Debug, PartialEq, Eq)]
pub enum StartupError {
    /// A tool that the runtime cannot do without was not found.
    ToolNotFound(ToolNotFound),
    /// The configuration file could not be looked after.
    Config(ConfigError),
    /// The configuration template exists but could not be copied.
    TemplateCopyFailed { from: FsPath, to: FsPath },
    /// The dependencies could not be synchronised.
    InstallFailed { outcome: RunOutcome },
}

/// The mathematical value of a `StartupError`.
pub enum StartupErrorView {
    ToolNotFound { tool: Tool, attempted: Seq<Seq<char>> },
    Config(ConfigError),
    TemplateCopyFailed { from: PathView, to: PathView },
    InstallFailed { outcome: RunOutcomeView },
}

impl View for StartupError {
    type V = StartupErrorView;

    open spec fn view(&self) -> StartupErrorView {
        match self {
            StartupError::ToolNotFound(error) => StartupErrorView::ToolNotFound {
                tool: error.tool,
                attempted: error.attempted.deep_view(),
            },
            StartupError::Config(error) => StartupErrorView::Config(*error),
            StartupError::TemplateCopyFailed { from, to } => StartupErrorView::TemplateCopyFailed {
                from: from@,
                to: to@,
            },
            StartupError::InstallFailed { outcome } => StartupErrorView::InstallFailed {
                outcome: outcome@,
            },
        }
    }
}

/// Something that the operator should be told, and that does not stop the
/// supervisor.
#[derive(Debug, PartialEq, Eq)]
pub enum Notice {
    /// The configuration file was made from the template: it must be edited, and
    /// the application restarted.
    ConfigCreated { config: FsPath },
    /// There is neither a configuration file nor a template to make it from.
    ConfigMissing { template: FsPath, config: FsPath },
    /// There is no storage initialisation script; the step was skipped.
    StorageScriptMissing { script: FsPath },
    /// The storage initialisation did not end cleanly.
    StorageInitWarning { outcome: RunOutcome },
    /// One process was not launched; the others are not affected.
    LaunchFailed { identity: String, error: LaunchError },
    /// A tracked process had already exited at the liveness sweep.
    ProcessExited { index: usize, code: Option<i32> },
    /// The status of a tracked process could not be had.
    StatusUnknown { index: usize },
}

/// The mathematical value of a `Notice`.
pub enum NoticeView {
    ConfigCreated { config: PathView },
    ConfigMissing { template: PathView, config: PathView },
    StorageScriptMissing { script: PathView },
    StorageInitWarning { outcome: RunOutcomeView },
    LaunchFailed { identity: Seq<char>, error: LaunchErrorView },
    ProcessExited { index: nat, code: Option<i32> },
    StatusUnknown { index: nat },
}

impl View for Notice {
    type V = NoticeView;

    open spec fn view(&self) -> NoticeView {
        match self {
            Notice::ConfigCreated { config } => NoticeView::ConfigCreated { config: config@ },
            Notice::ConfigMissing { template, config } => NoticeView::ConfigMissing {
                template: template@,
                config: config@,
            },
            Notice::StorageScriptMissing { script } => NoticeView::StorageScriptMissing {
                script: script@,
            },
            Notice::StorageInitWarning { outcome } => NoticeView::StorageInitWarning {
                outcome: outcome@,
            },
            Notice::LaunchFailed { identity, error } => NoticeView::LaunchFailed {
                identity: identity@,
                error: error@,
            },
            Notice::ProcessExited { index, code } => NoticeView::ProcessExited {
                index: *index as nat,
                code: *code,
            },
            Notice::StatusUnknown { index } => NoticeView::StatusUnknown { index: *index as nat },
        }
    }
}

impl DeepView for Notice {
    type V = NoticeView;

    open spec fn deep_view(&self) -> NoticeView {
        self@
    }
}

/// What the host has to do next.
#[derive(Debug, PartialEq, Eq)]
pub enum Action {
    /// Launch the invocation and wait for it; report `Probed`.
    Probe(Invocation),
    /// Test whether the path exists; report `Exists`.
    CheckExists(FsPath),
    /// Copy the file byte for byte; report `Copied`.
    CopyFile { from: FsPath, to: FsPath },
    /// Run the invocation to its end and collect its output; report `Ran`.
    Run(Invocation),
    /// Start the invocation as a long-lived process; report `Spawned`.
    Spawn(Invocation),
    /// Wait this long; report `Resumed`.
    Pause { millis: u64 },
    /// Ask the tracked process at `index` for its status without waiting; report
    /// `Polled`.
    Poll { index: usize },
    /// The startup is complete. Nothing is to be reported.
    Complete(LivenessReport),
    /// The startup was given up. Nothing is to be reported.
    Abort(StartupError),
    /// There is nothing to do.
    Idle,
}

/// The mathematical value of an `Action`.
pub enum ActionView {
    Probe(InvocationView),
    CheckExists(PathView),
    CopyFile { from: PathView, to: PathView },
    Run(InvocationView),
    Spawn(InvocationView),
    Pause { millis: nat },
    Poll { index: nat },
    Complete(LivenessReport),
    Abort(StartupErrorView),
    Idle,
}

impl View for Action {
    type V = ActionView;

    open spec fn view(&self) -> ActionView {
        match self {
            Action::Probe(invocation) => ActionView::Probe(invocation@),
            Action::CheckExists(path) => ActionView::CheckExists(path@),
            Action::CopyFile { from, to } => ActionView::CopyFile { from: from@, to: to@ },
            Action::Run(invocation) => ActionView::Run(invocation@),
            Action::Spawn(invocation) => ActionView::Spawn(invocation@),
            Action::Pause { millis } => ActionView::Pause { millis: *millis as nat },
            Action::Poll { index } => ActionView::Poll { index: *index as nat },
            Action::Complete(report) => ActionView::Complete(*report),
            Action::Abort(error) => ActionView::Abort(error@),
            Action::Idle => ActionView::Idle,
        }
    }
}

/// The answer of the supervisor to one event.
#[derive(Debug)]
pub struct Step<H> {
    /// What the operator should be told about the event.
    pub notice: Option<Notice>,
    /// What the host has to do next.
    pub action: Action,
    /// A freshly spawned process that the supervisor did not expect and does not
    /// track: the host has to terminate it.
    pub orphan: Option<H>,
}

/// The mathematical value of a `Step`.
pub struct StepView<H> {
    pub notice: Option<NoticeView>,
    pub action: ActionView,
    pub orphan: Option<H>,
}

impl<H> View for Step<H> {
    type V = StepView<H>;

    open spec fn view(&self) -> StepView<H> {
        StepView { notice: self.notice.deep_view(), action: self.action@, orphan: self.orphan }
    }
}

} // verus!
