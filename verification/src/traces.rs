//! Whole stretches of a startup: what the launches and the sweep come to when
//! the host's answers are given in advance.

use crate::launch::worker_launch;
use crate::liveness::{count_running, report_of, ProcessStatus};
use crate::model::ManagerView;
use crate::protocol::{ActionView, EventView, Phase, StartupErrorView};
use crate::tools::SearchView;
use vstd::prelude::*;

verus! {

/// What the host will find when it works on one launch target.
pub struct LaunchWorld<H> {
    /// Whether the runtime root exists just before the launch.
    pub root_present: bool,
    /// Whether the configuration file exists just before the launch.
    pub config_present: bool,
    /// What an attempt to spawn the process comes to.
    pub spawn: Result<H, Seq<char>>,
}

impl<H> ManagerView<H> {
    /// Whether the supervisor is about to begin launch target `index`.
    pub open spec fn begins_target(self, index: nat) -> bool {
        &&& self.cursor == index
        &&& index <= self.workers.len()
        &&& self.phase == if index < self.workers.len() {
            Phase::CheckingRuntimeRoot
        } else {
            Phase::Spawning
        }
    }

    /// Whether launch target `index` starts in `world`: a worker must be known
    /// and find both paths, and the spawn must succeed; the server only needs
    /// the spawn to succeed.
    pub open spec fn target_starts(self, index: nat, world: LaunchWorld<H>) -> bool {
        &&& world.spawn is Ok
        &&& index < self.workers.len() ==> worker_launch(
            self.workers[index as int],
            self.tool,
            self.location,
            world.root_present,
            world.config_present,
        ) is Ok
    }

    /// The state after the current launch target was worked through in `world`:
    /// both paths are tested, the process is spawned unless the worker is
    /// refused, and the pause after a worker's spawn is waited out.
    pub open spec fn launch_one(self, world: LaunchWorld<H>) -> Self {
        if self.phase == Phase::CheckingRuntimeRoot {
            let checked = self.on_exists(world.root_present).0.on_exists(world.config_present).0;
            if checked.phase == Phase::Spawning && checked.cursor == self.cursor {
                checked.on_spawned(world.spawn).0.on_resumed().0
            } else {
                checked
            }
        } else if self.phase == Phase::Spawning {
            self.on_spawned(world.spawn).0
        } else {
            self
        }
    }

    /// The state after the first `count` launch targets were worked through,
    /// target `i` in `worlds[i]`.
    pub open spec fn launch_through(self, worlds: Seq<LaunchWorld<H>>, count: nat) -> Self
        decreases count,
    {
        if count == 0 {
            self
        } else {
            self.launch_through(worlds, (count - 1) as nat).launch_one(worlds[count - 1])
        }
    }

    /// The processes of the first `count` launch targets that start, in launch
    /// order.
    pub open spec fn started(self, worlds: Seq<LaunchWorld<H>>, count: nat) -> Seq<H>
        decreases count,
    {
        if count == 0 {
            Seq::<H>::empty()
        } else {
            let before = self.started(worlds, (count - 1) as nat);
            if self.target_starts((count - 1) as nat, worlds[count - 1]) {
                before.push(worlds[count - 1].spawn->Ok_0)
            } else {
                before
            }
        }
    }

    /// How many of the first `count` launch targets do not start.
    pub open spec fn failures(self, worlds: Seq<LaunchWorld<H>>, count: nat) -> nat
        decreases count,
    {
        if count == 0 {
            0
        } else {
            self.failures(worlds, (count - 1) as nat) + if self.target_starts(
                (count - 1) as nat,
                worlds[count - 1],
            ) {
                0nat
            } else {
                1nat
            }
        }
    }

    /// The state after the first `count` candidates of the tool search that is
    /// under way were probed, where `responds[i]` says whether candidate `i` can be
    /// launched.
    pub open spec fn probe_through(self, responds: Seq<bool>, count: nat) -> Self
        decreases count,
    {
        if count == 0 {
            self
        } else {
            self.probe_through(responds, (count - 1) as nat).on_probe(responds[count - 1]).0
        }
    }

    /// The state after the sweep has taken in the statuses of the first `count`
    /// tracked processes.
    pub open spec fn sweep_through(self, statuses: Seq<ProcessStatus>, count: nat) -> Self
        decreases count,
    {
        if count == 0 {
            self
        } else {
            self.sweep_through(statuses, (count - 1) as nat).on_polled(statuses[count - 1]).0
        }
    }
}

/// Working one launch target through tracks its process if it starts and counts
/// a failure if it does not; either way the next target is begun, and nothing
/// else about the supervisor changes.
pub proof fn lemma_launch_one<H>(state: ManagerView<H>, world: LaunchWorld<H>)
    requires
        state.wf(),
        state.begins_target(state.cursor),
    ensures
        ({
            let next = state.launch_one(world);
            let starts = state.target_starts(state.cursor, world);
            &&& next.wf()
            &&& next.registry == if starts {
                state.registry.push(world.spawn->Ok_0)
            } else {
                state.registry
            }
            &&& next.failed == if starts {
                state.failed
            } else {
                state.failed + 1
            }
            &&& next.workers == state.workers
            &&& next.tool == state.tool
            &&& next.location == state.location
            &&& if state.cursor < state.workers.len() {
                next.begins_target(state.cursor + 1)
            } else {
                next.phase == Phase::AwaitingSweep
            }
        }),
{
}

/// After the first `count` launch targets, the registry holds exactly the
/// processes of those that started, in launch order, and every other target is
/// counted as failed.
pub proof fn lemma_launch_through<H>(state: ManagerView<H>, worlds: Seq<LaunchWorld<H>>, count: nat)
    requires
        state.wf(),
        state.begins_target(0),
        count <= state.targets(),
        worlds.len() == state.targets(),
    ensures
        ({
            let after = state.launch_through(worlds, count);
            &&& after.wf()
            &&& after.registry == state.started(worlds, count)
            &&& after.failed == state.failures(worlds, count)
            &&& after.registry.len() + after.failed == count
            &&& after.workers == state.workers
            &&& after.tool == state.tool
            &&& after.location == state.location
            &&& if count < state.targets() {
                after.begins_target(count)
            } else {
                after.phase == Phase::AwaitingSweep
            }
        }),
    decreases count,
{
    if count > 0 {
        let before = state.launch_through(worlds, (count - 1) as nat);
        lemma_launch_through(state, worlds, (count - 1) as nat);
        lemma_launch_one(before, worlds[count - 1]);
        assert(before.target_starts(before.cursor, worlds[count - 1]) == state.target_starts(
            (count - 1) as nat,
            worlds[count - 1],
        ));
    }
}

/// A launch that fails takes nothing else down: when all launch targets were
/// worked through, the registry holds one process for each target but the failed
/// ones. With `n` targets of which exactly one fails, it holds `n - 1`.
pub proof fn lemma_partial_failure<H>(state: ManagerView<H>, worlds: Seq<LaunchWorld<H>>)
    requires
        state.wf(),
        state.begins_target(0),
        worlds.len() == state.targets(),
    ensures
        ({
            let after = state.launch_through(worlds, state.targets());
            &&& after.phase == Phase::AwaitingSweep
            &&& after.registry == state.started(worlds, state.targets())
            &&& after.registry.len() == state.targets() - state.failures(worlds, state.targets())
            &&& state.failures(worlds, state.targets()) == 1 ==> after.registry.len()
                == state.targets() - 1
            &&& state.failures(worlds, state.targets()) == 0 ==> after.registry.len()
                == state.targets()
        }),
{
    lemma_launch_through(state, worlds, state.targets());
}

/// As long as the probed candidates fail, the search moves on to the next one
/// and nothing else changes.
pub proof fn lemma_probe_through<H>(state: ManagerView<H>, responds: Seq<bool>, count: nat)
    requires
        state.wf(),
        state.phase == Phase::FindingInterpreter || state.phase == Phase::FindingDependencyManager,
        state.search.position == 0,
        count < state.search.candidates.len(),
        forall|i: int| 0 <= i < count ==> !responds[i],
    ensures
        state.probe_through(responds, count) == (ManagerView {
            search: SearchView { position: count, ..state.search },
            ..state
        }),
        state.probe_through(responds, count).wf(),
    decreases count,
{
    if count > 0 {
        lemma_probe_through(state, responds, (count - 1) as nat);
    }
}

/// Tool resolution respects the order of the candidates: the dependency manager
/// that the supervisor goes on with is the first candidate that responds, however
/// many later ones would respond too.
pub proof fn lemma_first_responding_tool_is_bound<H>(
    state: ManagerView<H>,
    responds: Seq<bool>,
    first: nat,
)
    requires
        state.wf(),
        state.phase == Phase::FindingDependencyManager,
        state.search.position == 0,
        first < state.search.candidates.len(),
        responds[first as int],
        forall|i: int| 0 <= i < first ==> !responds[i],
    ensures
        ({
            let (found, step) = state.probe_through(responds, first).on_probe(
                responds[first as int],
            );
            &&& found == state.probe_through(responds, first + 1)
            &&& found.phase == Phase::CheckingConfig
            &&& found.tool == state.search.candidates[first as int]
            &&& !(step.action is Abort)
        }),
{
    lemma_probe_through(state, responds, first);
}

/// Where no candidate of a tool responds, the startup is given up with an error
/// that names the tool and lists every candidate as attempted.
pub proof fn lemma_unfound_tool_aborts<H>(state: ManagerView<H>, responds: Seq<bool>)
    requires
        state.wf(),
        state.phase == Phase::FindingInterpreter || state.phase == Phase::FindingDependencyManager,
        state.search.position == 0,
        forall|i: int| 0 <= i < state.search.candidates.len() ==> !responds[i],
    ensures
        ({
            let last = (state.search.candidates.len() - 1) as nat;
            let (given_up, step) = state.probe_through(responds, last).on_probe(
                responds[last as int],
            );
            &&& given_up.phase == Phase::Idle
            &&& given_up.registry.len() == 0
            &&& step.action == ActionView::Abort(
                StartupErrorView::ToolNotFound {
                    tool: state.search.tool,
                    attempted: state.search.candidates,
                },
            )
        }),
{
    let last = (state.search.candidates.len() - 1) as nat;
    lemma_probe_through(state, responds, last);
}

/// While the sweep is under way it has asked the first `count` processes and
/// counted those that run.
pub proof fn lemma_sweep_through<H>(state: ManagerView<H>, statuses: Seq<ProcessStatus>, count: nat)
    requires
        state.wf(),
        state.phase == Phase::Sweeping,
        state.cursor == 0,
        state.alive == 0,
        statuses.len() == state.registry.len(),
        count < statuses.len(),
    ensures
        ({
            let during = state.sweep_through(statuses, count);
            &&& during.wf()
            &&& during.phase == Phase::Sweeping
            &&& during.cursor == count
            &&& during.alive == count_running(statuses.subrange(0, count as int))
            &&& during.registry == state.registry
        }),
    decreases count,
{
    if count > 0 {
        lemma_sweep_through(state, statuses, (count - 1) as nat);
        assert(statuses.subrange(0, count as int).drop_last() =~= statuses.subrange(
            0,
            count - 1,
        ));
    } else {
        assert(statuses.subrange(0, 0).len() == 0);
    }
}

/// The sweep asks every tracked process once and then completes the startup
/// with the number of those that run, out of all that are tracked; it tracks
/// neither more nor fewer processes for it.
pub proof fn lemma_sweep_counts_the_running<H>(state: ManagerView<H>, statuses: Seq<ProcessStatus>)
    requires
        state.wf(),
        state.phase == Phase::Sweeping,
        state.cursor == 0,
        state.alive == 0,
        statuses.len() == state.registry.len(),
    ensures
        ({
            let last = (statuses.len() - 1) as nat;
            let (done, step) = state.sweep_through(statuses, last).on_polled(statuses[last as int]);
            &&& done == state.sweep_through(statuses, statuses.len())
            &&& done.phase == Phase::Running
            &&& done.registry == state.registry
            &&& step.action == ActionView::Complete(
                report_of(count_running(statuses), statuses.len()),
            )
            &&& done.liveness() == Some(report_of(count_running(statuses), statuses.len()))
        }),
{
    let last = (statuses.len() - 1) as nat;
    lemma_sweep_through(state, statuses, last);
    assert(statuses.drop_last() =~= statuses.subrange(0, last as int));
}

/// A startup that is given up has launched nothing: nothing is tracked, and the
/// supervisor is idle again.
pub proof fn lemma_abort_launches_nothing<H>(state: ManagerView<H>, event: EventView<H>)
    requires
        state.wf(),
        state.advance(event).1.action is Abort,
    ensures
        state.advance(event).0.phase == Phase::Idle,
        state.advance(event).0.registry.len() == 0,
        state.registry.len() == 0,
{
}

} // verus!
