//! The supervisor itself: it owns the registry of spawned processes and decides,
//! event by event, what the host has to do next.

use crate::command::Invocation;
use crate::config::{bootstrap_plan, plan_bootstrap, ConfigAction, ConfigActionView, ConfigError};
use crate::launch::{plan_server_launch, plan_worker_launch, LaunchError};
use crate::layout::{ResolutionError, RuntimeLocation};
use crate::liveness::{make_report, LivenessReport, ProcessStatus};
use crate::model::{ManagerView, SETTLE_MILLIS, SWEEP_DELAY_MILLIS};
use crate::path::FsPath;
use crate::protocol::{Action, Event, Notice, Phase, RunOutcome, StartupError, Step};
use crate::registry::ProcessRegistry;
use crate::tools::{home_or_fallback, SearchStep, Tool, ToolSearch};
use crate::worker::{default_worker_texts, default_workers, server_identity};
use vstd::prelude::*;

verus! {

/// The fields of a supervisor.
struct Core<H> {
    location: RuntimeLocation,
    workers: Vec<String>,
    registry: ProcessRegistry<H>,
    phase: Phase,
    home: String,
    search: ToolSearch,
    tool: String,
    cursor: usize,
    root_present: bool,
    alive: usize,
    failed: usize,
}

impl<H> View for Core<H> {
    type V = ManagerView<H>;

    closed spec fn view(&self) -> ManagerView<H> {
        ManagerView {
            location: self.location@,
            workers: self.workers.deep_view(),
            registry: self.registry@,
            phase: self.phase,
            home: self.home@,
            search: self.search@,
            tool: self.tool@,
            cursor: self.cursor as nat,
            root_present: self.root_present,
            alive: self.alive as nat,
            failed: self.failed as nat,
        }
    }
}

impl<H> Core<H> {
    spec fn wf(&self) -> bool {
        self@.wf()
    }

    fn create(location: RuntimeLocation, workers: Vec<String>) -> (core: Self)
        requires
            workers.len() < usize::MAX,
        ensures
            core.wf(),
            core@ == ManagerView::<H>::initial(location@, workers.deep_view()),
    {
        let candidates: Vec<String> = Vec::new();
        assert(candidates.deep_view() =~= Seq::<Seq<char>>::empty());
        Core {
            location,
            workers,
            registry: ProcessRegistry::new(),
            phase: Phase::Idle,
            home: String::new(),
            search: ToolSearch::new(Tool::Interpreter, candidates),
            tool: String::new(),
            cursor: 0,
            root_present: false,
            alive: 0,
            failed: 0,
        }
    }

    /// A supervisor that has nothing to look after: it stands in for the real
    /// one while that is being worked on.
    fn placeholder() -> (core: Self)
        ensures
            core.wf(),
    {
        let nowhere = RuntimeLocation {
            runtime_root: FsPath::new(String::new(), Vec::new()),
            config_path: FsPath::new(String::new(), Vec::new()),
            log_directory: FsPath::new(String::new(), Vec::new()),
        };
        Core::create(nowhere, Vec::new())
    }

    /// The identity of the launch target that is being worked on.
    fn target_identity(&self) -> (identity: String)
        ensures
            identity@ == self@.target_identity(),
    {
        if self.cursor < self.workers.len() {
            self.workers[self.cursor].clone()
        } else {
            server_identity().to_owned()
        }
    }

    /// The invocation that spawns the launch target that is being worked on.
    fn spawn_plan(&self) -> (plan: Option<Invocation>)
        ensures
            plan.deep_view() == self@.spawn_plan(),
    {
        if self.cursor < self.workers.len() {
            match plan_worker_launch(
                self.workers[self.cursor].as_str(),
                self.tool.as_str(),
                &self.location,
                true,
                true,
            ) {
                Ok(invocation) => Some(invocation),
                Err(_) => None,
            }
        } else {
            Some(plan_server_launch(self.tool.as_str(), &self.location))
        }
    }

    fn pending(&self) -> (action: Action)
        ensures
            action@ == self@.pending(),
    {
        match self.phase {
            Phase::Idle | Phase::Running => Action::Idle,
            Phase::FindingInterpreter | Phase::FindingDependencyManager => {
                match self.search.pending() {
                    Some(probe) => Action::Probe(probe),
                    None => Action::Idle,
                }
            },
            Phase::CheckingConfig | Phase::CheckingLaunchConfig => Action::CheckExists(
                self.location.config_path.clone(),
            ),
            Phase::CheckingTemplate => match self.location.template_path() {
                Some(template) => Action::CheckExists(template),
                None => Action::Idle,
            },
            Phase::CopyingTemplate => match self.location.template_path() {
                Some(template) => Action::CopyFile {
                    from: template,
                    to: self.location.config_path.clone(),
                },
                None => Action::Idle,
            },
            Phase::Installing => Action::Run(
                Invocation::dependency_sync(self.tool.as_str(), &self.location),
            ),
            Phase::CheckingStorageScript => Action::CheckExists(self.location.storage_script()),
            Phase::InitializingStorage => Action::Run(
                Invocation::storage_init(self.tool.as_str(), &self.location),
            ),
            Phase::CheckingRuntimeRoot => Action::CheckExists(self.location.runtime_root.clone()),
            Phase::Spawning => match self.spawn_plan() {
                Some(invocation) => Action::Spawn(invocation),
                None => Action::Idle,
            },
            Phase::Settling => Action::Pause { millis: SETTLE_MILLIS },
            Phase::AwaitingSweep => Action::Pause { millis: SWEEP_DELAY_MILLIS },
            Phase::Sweeping => Action::Poll { index: self.cursor },
        }
    }

    fn proceed(&self, notice: Option<Notice>) -> (step: Step<H>)
        ensures
            step@ == self@.proceed(notice.deep_view()).1,
    {
        Step { notice, action: self.pending(), orphan: None }
    }

    fn give_up(&mut self, error: StartupError) -> (step: Step<H>)
        ensures
            (final(self)@, step@) == old(self)@.give_up(error@),
    {
        self.phase = Phase::Idle;
        Step { notice: None, action: Action::Abort(error), orphan: None }
    }

    fn enter_target(&mut self, index: usize)
        ensures
            final(self)@ == old(self)@.enter_target(index as nat),
    {
        self.cursor = index;
        if index < self.workers.len() {
            self.phase = Phase::CheckingRuntimeRoot;
        } else if index == self.workers.len() {
            self.phase = Phase::Spawning;
        } else {
            self.phase = Phase::AwaitingSweep;
        }
    }

    fn fail_target(&mut self, error: LaunchError) -> (step: Step<H>)
        requires
            old(self).wf(),
            old(self)@.phase == Phase::CheckingLaunchConfig || old(self)@.phase == Phase::Spawning,
        ensures
            (final(self)@, step@) == old(self)@.fail_target(error@),
    {
        let identity = self.target_identity();
        self.failed = self.failed + 1;
        let next = self.cursor + 1;
        self.enter_target(next);
        self.proceed(Some(Notice::LaunchFailed { identity, error }))
    }

    fn complete(&mut self, alive: usize, notice: Option<Notice>) -> (step: Step<H>)
        ensures
            (final(self)@, step@) == old(self)@.complete(alive as nat, notice.deep_view()),
    {
        self.alive = alive;
        self.phase = Phase::Running;
        Step {
            notice,
            action: Action::Complete(make_report(alive, self.registry.len())),
            orphan: None,
        }
    }

    fn on_probe(&mut self, responded: bool) -> (step: Step<H>)
        requires
            old(self).wf(),
        ensures
            (final(self)@, step@) == old(self)@.on_probe(responded),
    {
        match self.phase {
            Phase::FindingInterpreter | Phase::FindingDependencyManager => {
                let result = self.search.record(responded);
                match result {
                    SearchStep::Continue => self.proceed(None),
                    SearchStep::Exhausted(error) => self.give_up(StartupError::ToolNotFound(error)),
                    SearchStep::Resolved(binding) => {
                        if self.phase == Phase::FindingInterpreter {
                            self.search = ToolSearch::for_tool(
                                Tool::DependencyManager,
                                self.home.as_str(),
                            );
                            self.phase = Phase::FindingDependencyManager;
                        } else {
                            self.tool = binding.command;
                            self.phase = Phase::CheckingConfig;
                        }
                        self.proceed(None)
                    },
                }
            },
            _ => self.proceed(None),
        }
    }

    fn on_exists(&mut self, present: bool) -> (step: Step<H>)
        requires
            old(self).wf(),
        ensures
            (final(self)@, step@) == old(self)@.on_exists(present),
    {
        match self.phase {
            Phase::CheckingConfig => {
                if present {
                    self.phase = Phase::Installing;
                    self.proceed(None)
                } else {
                    match plan_bootstrap(&self.location, false, false) {
                        Err(error) => self.give_up(StartupError::Config(error)),
                        Ok(_) => {
                            self.phase = Phase::CheckingTemplate;
                            self.proceed(None)
                        },
                    }
                }
            },
            Phase::CheckingTemplate => match plan_bootstrap(&self.location, false, present) {
                Err(error) => self.give_up(StartupError::Config(error)),
                Ok(ConfigAction::CopyTemplate { .. }) => {
                    self.phase = Phase::CopyingTemplate;
                    self.proceed(None)
                },
                Ok(ConfigAction::ReportMissing { template, config }) => {
                    self.phase = Phase::Installing;
                    self.proceed(Some(Notice::ConfigMissing { template, config }))
                },
                Ok(ConfigAction::Keep) => {
                    self.phase = Phase::Installing;
                    self.proceed(None)
                },
            },
            Phase::CheckingStorageScript => {
                if present {
                    self.phase = Phase::InitializingStorage;
                    self.proceed(None)
                } else {
                    let script = self.location.storage_script();
                    self.enter_target(0);
                    self.proceed(Some(Notice::StorageScriptMissing { script }))
                }
            },
            Phase::CheckingRuntimeRoot => {
                self.root_present = present;
                self.phase = Phase::CheckingLaunchConfig;
                self.proceed(None)
            },
            Phase::CheckingLaunchConfig => {
                let plan = plan_worker_launch(
                    self.workers[self.cursor].as_str(),
                    self.tool.as_str(),
                    &self.location,
                    self.root_present,
                    present,
                );
                match plan {
                    Ok(_) => {
                        self.phase = Phase::Spawning;
                        self.proceed(None)
                    },
                    Err(error) => self.fail_target(error),
                }
            },
            _ => self.proceed(None),
        }
    }

    fn on_copied(&mut self, done: bool) -> (step: Step<H>)
        requires
            old(self).wf(),
        ensures
            (final(self)@, step@) == old(self)@.on_copied(done),
    {
        match self.phase {
            Phase::CopyingTemplate => match self.location.template_path() {
                None => self.give_up(
                    StartupError::Config(ConfigError::TemplateLocationUnavailable),
                ),
                Some(template) => {
                    let config = self.location.config_path.clone();
                    if done {
                        self.phase = Phase::Installing;
                        self.proceed(Some(Notice::ConfigCreated { config }))
                    } else {
                        self.give_up(
                            StartupError::TemplateCopyFailed { from: template, to: config },
                        )
                    }
                },
            },
            _ => self.proceed(None),
        }
    }

    fn on_ran(&mut self, outcome: RunOutcome) -> (step: Step<H>)
        requires
            old(self).wf(),
        ensures
            (final(self)@, step@) == old(self)@.on_ran(outcome@),
    {
        match self.phase {
            Phase::Installing => {
                if outcome.succeeded() {
                    self.phase = Phase::CheckingStorageScript;
                    self.proceed(None)
                } else {
                    self.give_up(StartupError::InstallFailed { outcome })
                }
            },
            Phase::InitializingStorage => {
                let notice = if outcome.clean() {
                    None
                } else {
                    Some(Notice::StorageInitWarning { outcome })
                };
                self.enter_target(0);
                self.proceed(notice)
            },
            _ => self.proceed(None),
        }
    }

    fn on_spawned(&mut self, result: Result<H, String>) -> (step: Step<H>)
        requires
            old(self).wf(),
        ensures
            (final(self)@, step@) == old(self)@.on_spawned(
                match result {
                    Ok(handle) => Ok(handle),
                    Err(reason) => Err(reason@),
                },
            ),
    {
        match self.phase {
            Phase::Spawning => match result {
                Ok(handle) => {
                    self.registry.push(handle);
                    if self.cursor < self.workers.len() {
                        self.phase = Phase::Settling;
                    } else {
                        self.phase = Phase::AwaitingSweep;
                    }
                    self.proceed(None)
                },
                Err(reason) => self.fail_target(LaunchError::SpawnFailed { reason }),
            },
            _ => {
                let orphan = match result {
                    Ok(handle) => Some(handle),
                    Err(_) => None,
                };
                Step { notice: None, action: self.pending(), orphan }
            },
        }
    }

    fn on_resumed(&mut self) -> (step: Step<H>)
        requires
            old(self).wf(),
        ensures
            (final(self)@, step@) == old(self)@.on_resumed(),
    {
        match self.phase {
            Phase::Settling => {
                let next = self.cursor + 1;
                self.enter_target(next);
                self.proceed(None)
            },
            Phase::AwaitingSweep => {
                if self.registry.len() == 0 {
                    self.complete(0, None)
                } else {
                    self.phase = Phase::Sweeping;
                    self.cursor = 0;
                    self.alive = 0;
                    self.proceed(None)
                }
            },
            _ => self.proceed(None),
        }
    }

    fn on_polled(&mut self, status: ProcessStatus) -> (step: Step<H>)
        requires
            old(self).wf(),
        ensures
            (final(self)@, step@) == old(self)@.on_polled(status),
    {
        match self.phase {
            Phase::Sweeping => {
                let (alive, notice) = match status {
                    ProcessStatus::Running => (self.alive + 1, None),
                    ProcessStatus::Exited { code } => (
                        self.alive,
                        Some(Notice::ProcessExited { index: self.cursor, code }),
                    ),
                    ProcessStatus::Unknown => (
                        self.alive,
                        Some(Notice::StatusUnknown { index: self.cursor }),
                    ),
                };
                if self.cursor + 1 < self.registry.len() {
                    self.cursor = self.cursor + 1;
                    self.alive = alive;
                    self.proceed(notice)
                } else {
                    self.complete(alive, notice)
                }
            },
            _ => self.proceed(None),
        }
    }

    fn start(&mut self, home: Option<String>) -> (step: Step<H>)
        requires
            old(self).wf(),
        ensures
            final(self).wf(),
            (final(self)@, step@) == old(self)@.start(
                match home {
                    Some(given) => Some(given@),
                    None => None,
                },
            ),
    {
        if self.phase == Phase::Idle {
            self.home = home_or_fallback(home);
            self.search = ToolSearch::for_tool(Tool::Interpreter, self.home.as_str());
            self.phase = Phase::FindingInterpreter;
        }
        self.proceed(None)
    }

    fn advance(&mut self, event: Event<H>) -> (step: Step<H>)
        requires
            old(self).wf(),
        ensures
            final(self).wf(),
            (final(self)@, step@) == old(self)@.advance(event@),
    {
        proof {
            crate::model::lemma_advance_keeps_wf(self@, event@);
        }
        match event {
            Event::Probed { responded } => self.on_probe(responded),
            Event::Exists { present } => self.on_exists(present),
            Event::Copied { done } => self.on_copied(done),
            Event::Ran(outcome) => self.on_ran(outcome),
            Event::Spawned(result) => self.on_spawned(result),
            Event::Resumed => self.on_resumed(),
            Event::Polled(status) => self.on_polled(status),
        }
    }

    fn stop(&mut self) -> (handles: Vec<H>)
        requires
            old(self).wf(),
        ensures
            final(self).wf(),
            (final(self)@, handles@) == old(self)@.stopped(),
    {
        let handles = self.registry.drain();
        self.phase = Phase::Idle;
        self.cursor = 0;
        self.alive = 0;
        self.failed = 0;
        handles
    }
}

/// The supervisor of the backend processes. `H` is the host's handle to a spawned
/// process; the supervisor owns every handle from the moment the spawn is
/// reported until `stop_all` hands it out for termination.
pub struct BackendManager<H> {
    core: Core<H>,
}

impl<H> View for BackendManager<H> {
    type V = ManagerView<H>;

    closed spec fn view(&self) -> ManagerView<H> {
        self.core@
    }
}

impl<H> BackendManager<H> {
    #[verifier::type_invariant]
    spec fn consistent(self) -> bool {
        self.core.wf()
    }

    /// A supervisor for the location, with the default workers. The location is
    /// only accepted if its log directory could be created: without it no
    /// spawned process could be observed.
    pub fn new(location: RuntimeLocation, log_directory_ready: bool) -> (manager: Result<
        Self,
        ResolutionError,
    >)
        ensures
            match manager {
                Ok(manager) => log_directory_ready && manager@.wf() && manager@
                    == ManagerView::<H>::initial(location@, default_worker_texts()),
                Err(error) => !log_directory_ready && error
                    == ResolutionError::LogDirectoryUnavailable,
            },
    {
        Self::with_workers(location, default_workers(), log_directory_ready)
    }

    /// A supervisor for the location that launches the workers named in
    /// `workers`, in that order, and then the server.
    pub fn with_workers(
        location: RuntimeLocation,
        workers: Vec<String>,
        log_directory_ready: bool,
    ) -> (manager: Result<Self, ResolutionError>)
        requires
            workers.len() < usize::MAX,
        ensures
            match manager {
                Ok(manager) => log_directory_ready && manager@.wf() && manager@
                    == ManagerView::<H>::initial(location@, workers.deep_view()),
                Err(error) => !log_directory_ready && error
                    == ResolutionError::LogDirectoryUnavailable,
            },
    {
        if !log_directory_ready {
            return Err(ResolutionError::LogDirectoryUnavailable);
        }
        Ok(BackendManager { core: Core::create(location, workers) })
    }

    /// How far the startup has come.
    pub fn phase(&self) -> (phase: Phase)
        ensures
            phase == self@.phase,
            self@.wf(),
    {
        proof {
            use_type_invariant(self);
        }
        self.core.phase
    }

    /// The resolved paths of this supervisor.
    pub fn location(&self) -> (location: &RuntimeLocation)
        ensures
            location@ == self@.location,
    {
        &self.core.location
    }

    /// The number of tracked processes.
    pub fn process_count(&self) -> (count: usize)
        ensures
            count == self@.registry.len(),
    {
        self.core.registry.len()
    }

    /// The number of launches of this startup that have failed.
    pub fn failed_launches(&self) -> (count: usize)
        ensures
            count == self@.failed,
    {
        self.core.failed
    }

    /// What the last sweep found: how many of the tracked processes were still
    /// running shortly after the launches. `None` unless a startup is complete.
    pub fn liveness(&self) -> (report: Option<LivenessReport>)
        ensures
            report == self@.liveness(),
    {
        if self.core.phase == Phase::Running {
            Some(make_report(self.core.alive, self.core.registry.len()))
        } else {
            None
        }
    }

    /// Lends one tracked process to the host, so that it can ask the process for
    /// its status. The registry keeps its length and its other entries.
    pub fn process_mut(&mut self, index: usize) -> (handle: &mut H)
        requires
            index < old(self)@.registry.len(),
        ensures
            *handle == old(self)@.registry[index as int],
            final(self)@ == (ManagerView {
                registry: old(self)@.registry.update(index as int, *final(handle)),
                ..old(self)@
            }),
    {
        proof {
            use_type_invariant(&*self);
        }
        self.core.registry.entry_mut(index)
    }

    /// Decides what is to be done about the configuration file, given whether it
    /// and its template exist. A file that exists is never touched.
    pub fn ensure_env_file(&self, config_present: bool, template_present: bool) -> (plan: Result<
        ConfigAction,
        ConfigError,
    >)
        ensures
            match plan {
                Ok(action) => bootstrap_plan(self@.location, config_present, template_present)
                    == Ok::<ConfigActionView, ConfigError>(action@),
                Err(error) => bootstrap_plan(self@.location, config_present, template_present)
                    == Err::<ConfigActionView, ConfigError>(error),
            },
    {
        plan_bootstrap(&self.core.location, config_present, template_present)
    }

    /// The action that the supervisor waits for. A host that lost track of what
    /// it was asked to do can ask again.
    pub fn pending(&self) -> (action: Action)
        ensures
            action@ == self@.pending(),
    {
        self.core.pending()
    }

    /// Begins the startup: the tools are found, the configuration file is looked
    /// after, the dependencies are synchronised and the storage is initialised;
    /// then every worker and the server are launched, and at last a sweep tells
    /// which of them stayed alive. The host carries out the action of the step
    /// and reports each outcome to `advance`, until the action is `Complete` or
    /// `Abort`. `home` is the home directory, if the host knows one.
    ///
    /// While a startup is under way or complete, the call changes nothing and
    /// repeats the pending action.
    pub fn start_all(&mut self, home: Option<String>) -> (step: Step<H>)
        ensures
            old(self)@.wf(),
            final(self)@.wf(),
            (final(self)@, step@) == old(self)@.start(
                match home {
                    Some(given) => Some(given@),
                    None => None,
                },
            ),
    {
        proof {
            use_type_invariant(&*self);
        }
        let mut core = Core::placeholder();
        core::mem::swap(&mut core, &mut self.core);
        let step = core.start(home);
        self.core = core;
        step
    }

    /// Takes in what came of the last action and decides the next one.
    pub fn advance(&mut self, event: Event<H>) -> (step: Step<H>)
        ensures
            old(self)@.wf(),
            final(self)@.wf(),
            (final(self)@, step@) == old(self)@.advance(event@),
    {
        proof {
            use_type_invariant(&*self);
        }
        let mut core = Core::placeholder();
        core::mem::swap(&mut core, &mut self.core);
        let step = core.advance(event);
        self.core = core;
        step
    }

    /// Shuts down: removes every tracked process from the registry and hands
    /// them out, oldest first, for the host to terminate each. Afterwards nothing
    /// is tracked and no startup is under way, so a second call hands out nothing.
    pub fn stop_all(&mut self) -> (handles: Vec<H>)
        ensures
            old(self)@.wf(),
            final(self)@.wf(),
            (final(self)@, handles@) == old(self)@.stopped(),
    {
        proof {
            use_type_invariant(&*self);
        }
        let mut core = Core::placeholder();
        core::mem::swap(&mut core, &mut self.core);
        let handles = core.stop();
        self.core = core;
        handles
    }
}

} // verus!
