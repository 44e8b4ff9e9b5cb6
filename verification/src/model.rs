//! The supervisor as a state machine over mathematical values: its states, the
//! step that each event causes, and what holds of every state that can be reached.

use crate::command::{dependency_sync, storage_init, version_probe, InvocationView};
use crate::config::{bootstrap_plan, ConfigActionView, ConfigError};
use crate::launch::{server_launch, worker_launch, LaunchErrorView};
use crate::layout::LocationView;
use crate::liveness::{report_of, LivenessReport, ProcessStatus};
use crate::protocol::{
    ActionView, EventView, NoticeView, Phase, RunOutcomeView, StartupErrorView, StepView,
};
use crate::tools::{candidates_of, fallback_home, SearchResult, SearchView, Tool};
use crate::worker::server_identity_text;
use vstd::prelude::*;

verus! {

/// The pause after the spawn of a worker, in milliseconds.
pub const SETTLE_MILLIS: u64 = 500;

/// The pause between the last launch and the liveness sweep, in milliseconds.
pub const SWEEP_DELAY_MILLIS: u64 = 1000;

/// The mathematical value of a supervisor. The launch targets are the workers in
/// their order, then the server: target `i` is worker `i` for `i` below the
/// number of workers, and the server for `i` equal to it.
pub struct ManagerView<H> {
    pub location: LocationView,
    /// The identities of the workers, in launch order.
    pub workers: Seq<Seq<char>>,
    /// The tracked processes, oldest first.
    pub registry: Seq<H>,
    pub phase: Phase,
    /// The home directory with which tool candidates are expanded.
    pub home: Seq<char>,
    /// The tool search that is under way.
    pub search: SearchView,
    /// The command of the dependency manager, once it is found.
    pub tool: Seq<char>,
    /// The launch target that is being worked on; during the sweep, the tracked
    /// process that is being asked.
    pub cursor: nat,
    /// Whether the runtime root existed when last tested.
    pub root_present: bool,
    /// How many processes the sweep has found running.
    pub alive: nat,
    /// How many launches of this startup have failed.
    pub failed: nat,
}

impl<H> ManagerView<H> {
    /// The state of a supervisor that has done nothing yet.
    pub open spec fn initial(location: LocationView, workers: Seq<Seq<char>>) -> Self {
        ManagerView {
            location,
            workers,
            registry: Seq::<H>::empty(),
            phase: Phase::Idle,
            home: Seq::<char>::empty(),
            search: SearchView {
                tool: Tool::Interpreter,
                candidates: Seq::<Seq<char>>::empty(),
                position: 0,
            },
            tool: Seq::<char>::empty(),
            cursor: 0,
            root_present: false,
            alive: 0,
            failed: 0,
        }
    }

    /// The number of launch targets: every worker and the server.
    pub open spec fn targets(self) -> nat {
        self.workers.len() + 1
    }

    /// The identity of the launch target that is being worked on.
    pub open spec fn target_identity(self) -> Seq<char> {
        if self.cursor < self.workers.len() {
            self.workers[self.cursor as int]
        } else {
            server_identity_text()
        }
    }

    /// The invocation that spawns the launch target that is being worked on.
    pub open spec fn spawn_plan(self) -> Option<InvocationView> {
        if self.cursor < self.workers.len() {
            match worker_launch(self.target_identity(), self.tool, self.location, true, true) {
                Ok(invocation) => Some(invocation),
                Err(_) => None,
            }
        } else {
            Some(server_launch(self.tool, self.location))
        }
    }

    /// What every supervisor state satisfies. Before the launches nothing is
    /// tracked and nothing has failed; from then on every target that was worked
    /// on is either tracked or counted as failed.
    pub open spec fn wf(self) -> bool {
        &&& self.workers.len() < usize::MAX
        &&& match self.phase {
            Phase::Idle
            | Phase::CheckingConfig
            | Phase::Installing
            | Phase::CheckingStorageScript
            | Phase::InitializingStorage => self.registry.len() == 0 && self.failed == 0,
            Phase::FindingInterpreter | Phase::FindingDependencyManager => {
                &&& self.registry.len() == 0
                &&& self.failed == 0
                &&& self.search.position < self.search.candidates.len()
            },
            Phase::CheckingTemplate | Phase::CopyingTemplate => {
                &&& self.registry.len() == 0
                &&& self.failed == 0
                &&& self.location.template_path() is Some
            },
            Phase::CheckingRuntimeRoot | Phase::CheckingLaunchConfig => {
                &&& self.cursor < self.workers.len()
                &&& self.registry.len() + self.failed == self.cursor
            },
            Phase::Spawning => {
                &&& self.cursor <= self.workers.len()
                &&& self.registry.len() + self.failed == self.cursor
                &&& self.spawn_plan() is Some
            },
            Phase::Settling => {
                &&& self.cursor < self.workers.len()
                &&& self.registry.len() + self.failed == self.cursor + 1
            },
            Phase::AwaitingSweep | Phase::Running => self.registry.len() + self.failed
                == self.targets(),
            Phase::Sweeping => {
                &&& self.registry.len() + self.failed == self.targets()
                &&& self.cursor < self.registry.len()
                &&& self.alive <= self.cursor
            },
        }
    }

    /// What the last sweep found, for as long as the startup that it ended stands.
    pub open spec fn liveness(self) -> Option<LivenessReport> {
        if self.phase == Phase::Running {
            Some(report_of(self.alive, self.registry.len()))
        } else {
            None
        }
    }

    /// The action that the state waits for: a function of the state alone, so that
    /// a host that lost track can ask again.
    pub open spec fn pending(self) -> ActionView {
        match self.phase {
            Phase::Idle | Phase::Running => ActionView::Idle,
            Phase::FindingInterpreter | Phase::FindingDependencyManager => {
                match self.search.pending() {
                    Some(candidate) => ActionView::Probe(version_probe(candidate)),
                    None => ActionView::Idle,
                }
            },
            Phase::CheckingConfig | Phase::CheckingLaunchConfig => ActionView::CheckExists(
                self.location.config_path,
            ),
            Phase::CheckingTemplate => match self.location.template_path() {
                Some(template) => ActionView::CheckExists(template),
                None => ActionView::Idle,
            },
            Phase::CopyingTemplate => match self.location.template_path() {
                Some(template) => ActionView::CopyFile {
                    from: template,
                    to: self.location.config_path,
                },
                None => ActionView::Idle,
            },
            Phase::Installing => ActionView::Run(dependency_sync(self.tool, self.location)),
            Phase::CheckingStorageScript => ActionView::CheckExists(self.location.storage_script()),
            Phase::InitializingStorage => ActionView::Run(storage_init(self.tool, self.location)),
            Phase::CheckingRuntimeRoot => ActionView::CheckExists(self.location.runtime_root),
            Phase::Spawning => match self.spawn_plan() {
                Some(invocation) => ActionView::Spawn(invocation),
                None => ActionView::Idle,
            },
            Phase::Settling => ActionView::Pause { millis: SETTLE_MILLIS as nat },
            Phase::AwaitingSweep => ActionView::Pause { millis: SWEEP_DELAY_MILLIS as nat },
            Phase::Sweeping => ActionView::Poll { index: self.cursor },
        }
    }

    /// Goes on from `self`: the host is told `notice` and asked for what `self`
    /// waits for.
    pub open spec fn proceed(self, notice: Option<NoticeView>) -> (Self, StepView<H>) {
        (self, StepView { notice, action: self.pending(), orphan: None })
    }

    /// An event that the state does not wait for changes nothing.
    pub open spec fn stay(self) -> (Self, StepView<H>) {
        self.proceed(None)
    }

    /// Gives the startup up. This happens before the launches only.
    pub open spec fn give_up(self, error: StartupErrorView) -> (Self, StepView<H>) {
        (
            ManagerView { phase: Phase::Idle, ..self },
            StepView { notice: None, action: ActionView::Abort(error), orphan: None },
        )
    }

    /// The state in which launch target `index` is begun. Past the last target
    /// comes the pause before the sweep.
    pub open spec fn enter_target(self, index: nat) -> Self {
        if index < self.workers.len() {
            ManagerView { phase: Phase::CheckingRuntimeRoot, cursor: index, ..self }
        } else if index == self.workers.len() {
            ManagerView { phase: Phase::Spawning, cursor: index, ..self }
        } else {
            ManagerView { phase: Phase::AwaitingSweep, cursor: index, ..self }
        }
    }

    /// The launch of the current target has failed: the failure is counted and
    /// reported, and the next target is begun.
    pub open spec fn fail_target(self, error: LaunchErrorView) -> (Self, StepView<H>) {
        (ManagerView { failed: self.failed + 1, ..self }).enter_target(self.cursor + 1).proceed(
            Some(NoticeView::LaunchFailed { identity: self.target_identity(), error }),
        )
    }

    /// The sweep is over with `alive` processes running.
    pub open spec fn complete(self, alive: nat, notice: Option<NoticeView>) -> (Self, StepView<H>) {
        (
            ManagerView { phase: Phase::Running, alive, ..self },
            StepView {
                notice,
                action: ActionView::Complete(report_of(alive, self.registry.len())),
                orphan: None,
            },
        )
    }

    /// Begins a startup. While one is under way or complete, nothing changes.
    pub open spec fn start(self, home: Option<Seq<char>>) -> (Self, StepView<H>) {
        if self.phase == Phase::Idle {
            let home = match home {
                Some(given) => given,
                None => fallback_home(),
            };
            (ManagerView {
                phase: Phase::FindingInterpreter,
                home,
                search: SearchView {
                    tool: Tool::Interpreter,
                    candidates: candidates_of(Tool::Interpreter, home),
                    position: 0,
                },
                ..self
            }).proceed(None)
        } else {
            self.stay()
        }
    }

    /// A probe was made.
    pub open spec fn on_probe(self, responded: bool) -> (Self, StepView<H>) {
        match self.phase {
            Phase::FindingInterpreter | Phase::FindingDependencyManager => {
                let (search, result) = self.search.record(responded);
                let probed = ManagerView { search, ..self };
                match result {
                    SearchResult::Continue => probed.proceed(None),
                    SearchResult::Exhausted { tool, attempted } => probed.give_up(
                        StartupErrorView::ToolNotFound { tool, attempted },
                    ),
                    SearchResult::Resolved { command, .. } => if self.phase
                        == Phase::FindingInterpreter {
                        (ManagerView {
                            phase: Phase::FindingDependencyManager,
                            search: SearchView {
                                tool: Tool::DependencyManager,
                                candidates: candidates_of(Tool::DependencyManager, self.home),
                                position: 0,
                            },
                            ..self
                        }).proceed(None)
                    } else {
                        (ManagerView {
                            phase: Phase::CheckingConfig,
                            tool: command,
                            ..probed
                        }).proceed(None)
                    },
                }
            },
            _ => self.stay(),
        }
    }

    /// A path was tested.
    pub open spec fn on_exists(self, present: bool) -> (Self, StepView<H>) {
        match self.phase {
            Phase::CheckingConfig => if present {
                (ManagerView { phase: Phase::Installing, ..self }).proceed(None)
            } else {
                match bootstrap_plan(self.location, false, false) {
                    Err(error) => self.give_up(StartupErrorView::Config(error)),
                    Ok(_) => (ManagerView { phase: Phase::CheckingTemplate, ..self }).proceed(None),
                }
            },
            Phase::CheckingTemplate => match bootstrap_plan(self.location, false, present) {
                Err(error) => self.give_up(StartupErrorView::Config(error)),
                Ok(ConfigActionView::CopyTemplate { .. }) => (ManagerView {
                    phase: Phase::CopyingTemplate,
                    ..self
                }).proceed(None),
                Ok(ConfigActionView::ReportMissing { template, config }) => (ManagerView {
                    phase: Phase::Installing,
                    ..self
                }).proceed(Some(NoticeView::ConfigMissing { template, config })),
                Ok(ConfigActionView::Keep) => (ManagerView {
                    phase: Phase::Installing,
                    ..self
                }).proceed(None),
            },
            Phase::CheckingStorageScript => if present {
                (ManagerView { phase: Phase::InitializingStorage, ..self }).proceed(None)
            } else {
                self.enter_target(0).proceed(
                    Some(
                        NoticeView::StorageScriptMissing { script: self.location.storage_script() },
                    ),
                )
            },
            Phase::CheckingRuntimeRoot => (ManagerView {
                phase: Phase::CheckingLaunchConfig,
                root_present: present,
                ..self
            }).proceed(None),
            Phase::CheckingLaunchConfig => match worker_launch(
                self.target_identity(),
                self.tool,
                self.location,
                self.root_present,
                present,
            ) {
                Ok(_) => (ManagerView { phase: Phase::Spawning, ..self }).proceed(None),
                Err(error) => self.fail_target(error),
            },
            _ => self.stay(),
        }
    }

    /// A file copy was attempted.
    pub open spec fn on_copied(self, done: bool) -> (Self, StepView<H>) {
        match self.phase {
            Phase::CopyingTemplate => match self.location.template_path() {
                None => self.give_up(
                    StartupErrorView::Config(ConfigError::TemplateLocationUnavailable),
                ),
                Some(template) => if done {
                    (ManagerView { phase: Phase::Installing, ..self }).proceed(
                        Some(NoticeView::ConfigCreated { config: self.location.config_path }),
                    )
                } else {
                    self.give_up(
                        StartupErrorView::TemplateCopyFailed {
                            from: template,
                            to: self.location.config_path,
                        },
                    )
                },
            },
            _ => self.stay(),
        }
    }

    /// A program was run to its end.
    pub open spec fn on_ran(self, outcome: RunOutcomeView) -> (Self, StepView<H>) {
        match self.phase {
            Phase::Installing => if outcome.succeeded() {
                (ManagerView { phase: Phase::CheckingStorageScript, ..self }).proceed(None)
            } else {
                self.give_up(StartupErrorView::InstallFailed { outcome })
            },
            Phase::InitializingStorage => self.enter_target(0).proceed(
                if outcome.clean() {
                    None
                } else {
                    Some(NoticeView::StorageInitWarning { outcome })
                },
            ),
            _ => self.stay(),
        }
    }

    /// A spawn was attempted. A process that arrives when none is waited for is
    /// handed back as an orphan.
    pub open spec fn on_spawned(self, result: Result<H, Seq<char>>) -> (Self, StepView<H>) {
        match self.phase {
            Phase::Spawning => match result {
                Ok(handle) => (ManagerView {
                    phase: if self.cursor < self.workers.len() {
                        Phase::Settling
                    } else {
                        Phase::AwaitingSweep
                    },
                    registry: self.registry.push(handle),
                    ..self
                }).proceed(None),
                Err(reason) => self.fail_target(LaunchErrorView::SpawnFailed { reason }),
            },
            _ => (
                self,
                StepView {
                    notice: None,
                    action: self.pending(),
                    orphan: match result {
                        Ok(handle) => Some(handle),
                        Err(_) => None,
                    },
                },
            ),
        }
    }

    /// A pause is over.
    pub open spec fn on_resumed(self) -> (Self, StepView<H>) {
        match self.phase {
            Phase::Settling => self.enter_target(self.cursor + 1).proceed(None),
            Phase::AwaitingSweep => if self.registry.len() == 0 {
                self.complete(0, None)
            } else {
                (ManagerView { phase: Phase::Sweeping, cursor: 0, alive: 0, ..self }).proceed(None)
            },
            _ => self.stay(),
        }
    }

    /// A tracked process was asked for its status.
    pub open spec fn on_polled(self, status: ProcessStatus) -> (Self, StepView<H>) {
        match self.phase {
            Phase::Sweeping => {
                let alive = if status is Running {
                    self.alive + 1
                } else {
                    self.alive
                };
                let notice = match status {
                    ProcessStatus::Running => None,
                    ProcessStatus::Exited { code } => Some(
                        NoticeView::ProcessExited { index: self.cursor, code },
                    ),
                    ProcessStatus::Unknown => Some(
                        NoticeView::StatusUnknown { index: self.cursor },
                    ),
                };
                if self.cursor + 1 < self.registry.len() {
                    (ManagerView { cursor: self.cursor + 1, alive, ..self }).proceed(notice)
                } else {
                    self.complete(alive, notice)
                }
            },
            _ => self.stay(),
        }
    }

    /// The step that an event causes.
    pub open spec fn advance(self, event: EventView<H>) -> (Self, StepView<H>) {
        match event {
            EventView::Probed { responded } => self.on_probe(responded),
            EventView::Exists { present } => self.on_exists(present),
            EventView::Copied { done } => self.on_copied(done),
            EventView::Ran(outcome) => self.on_ran(outcome),
            EventView::Spawned(result) => self.on_spawned(result),
            EventView::Resumed => self.on_resumed(),
            EventView::Polled(status) => self.on_polled(status),
        }
    }

    /// The shutdown: every tracked process is handed out and nothing is tracked
    /// any more, whatever was under way.
    pub open spec fn stopped(self) -> (Self, Seq<H>) {
        (
            ManagerView {
                phase: Phase::Idle,
                registry: Seq::<H>::empty(),
                cursor: 0,
                alive: 0,
                failed: 0,
                ..self
            },
            self.registry,
        )
    }
}

/// A startup that begins from a well-formed state leaves a well-formed state.
pub proof fn lemma_start_keeps_wf<H>(state: ManagerView<H>, home: Option<Seq<char>>)
    requires
        state.wf(),
    ensures
        state.start(home).0.wf(),
{
}

/// Every event leaves a well-formed state well-formed.
pub proof fn lemma_advance_keeps_wf<H>(state: ManagerView<H>, event: EventView<H>)
    requires
        state.wf(),
    ensures
        state.advance(event).0.wf(),
{
}

/// A shutdown leaves a well-formed state, whatever the state before.
pub proof fn lemma_stop_keeps_wf<H>(state: ManagerView<H>)
    requires
        state.workers.len() < usize::MAX,
    ensures
        state.stopped().0.wf(),
        state.stopped().0.registry.len() == 0,
        state.stopped().1 == state.registry,
{
}

/// A second shutdown hands out nothing and changes nothing: no process is asked
/// to terminate twice.
pub proof fn lemma_stop_is_idempotent<H>(state: ManagerView<H>)
    ensures
        state.stopped().0.stopped() == (state.stopped().0, Seq::<H>::empty()),
{
}

/// Once the launches are over, the registry holds one entry for each launch
/// target but those whose launch failed: with `n` targets and one failure it
/// holds exactly `n - 1`.
pub proof fn lemma_failures_are_isolated<H>(state: ManagerView<H>)
    requires
        state.wf(),
        state.phase == Phase::AwaitingSweep || state.phase == Phase::Sweeping || state.phase
            == Phase::Running,
    ensures
        state.registry.len() == state.targets() - state.failed,
        state.failed <= state.targets(),
{
}

/// A launch that fails is reported in a notice and counted; it tracks nothing,
/// and it does not end the startup: the supervisor goes on with the next target.
pub proof fn lemma_launch_failure_is_not_propagated<H>(state: ManagerView<H>, event: EventView<H>)
    requires
        state.wf(),
        state.launch_fails(event),
    ensures
        ({
            let (next, step) = state.advance(event);
            &&& step.notice matches Some(NoticeView::LaunchFailed { identity, .. })
                && identity == state.target_identity()
            &&& !(step.action is Abort)
            &&& next.registry == state.registry
            &&& next.failed == state.failed + 1
            &&& next == state.enter_target(state.cursor + 1).with_failed(state.failed + 1)
        }),
{
}

impl<H> ManagerView<H> {
    /// Whether `event` reports, in this state, that the launch of the current
    /// target has failed: the spawn did, or the worker was refused beforehand.
    pub open spec fn launch_fails(self, event: EventView<H>) -> bool {
        match event {
            EventView::Spawned(Err(_)) => self.phase == Phase::Spawning,
            EventView::Exists { present } => self.phase == Phase::CheckingLaunchConfig
                && worker_launch(
                self.target_identity(),
                self.tool,
                self.location,
                self.root_present,
                present,
            ) is Err,
            _ => false,
        }
    }

    /// The same state with another count of failed launches.
    pub open spec fn with_failed(self, failed: nat) -> Self {
        ManagerView { failed, ..self }
    }
}

/// Only the steps before the launches can give a startup up: from the first
/// launch on, no event aborts it.
pub proof fn lemma_launches_never_abort<H>(state: ManagerView<H>, event: EventView<H>)
    requires
        state.wf(),
        state.phase == Phase::CheckingRuntimeRoot || state.phase == Phase::CheckingLaunchConfig
            || state.phase == Phase::Spawning || state.phase == Phase::Settling || state.phase
            == Phase::AwaitingSweep || state.phase == Phase::Sweeping || state.phase
            == Phase::Running,
    ensures
        !(state.advance(event).1.action is Abort),
{
}

/// A successful spawn adds exactly the new process at the end of the registry.
pub proof fn lemma_spawn_is_tracked<H>(state: ManagerView<H>, handle: H)
    requires
        state.wf(),
        state.phase == Phase::Spawning,
    ensures
        state.advance(EventView::Spawned(Ok(handle))).0.registry == state.registry.push(handle),
        state.advance(EventView::Spawned(Ok(handle))).0.failed == state.failed,
        state.advance(EventView::Spawned(Ok(handle))).1.orphan is None,
{
}

/// A process that arrives when no spawn is waited for is never dropped: it is
/// handed back to the host.
pub proof fn lemma_unexpected_process_is_handed_back<H>(state: ManagerView<H>, handle: H)
    requires
        state.phase != Phase::Spawning,
    ensures
        state.advance(EventView::Spawned(Ok(handle))).1.orphan == Some(handle),
        state.advance(EventView::Spawned(Ok(handle))).0 == state,
{
}

} // verus!
