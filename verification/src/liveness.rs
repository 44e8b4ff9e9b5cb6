//! The liveness sweep: what became of each process shortly after launch.

use vstd::prelude::*;

verus! {

/// What a non-blocking status query said about one process.
#[derive(Clone, Copy, PartialEq, Eq, Debug)]
pub enum ProcessStatus {
    /// The process has not exited.
    Running,
    /// The process has exited, with this code if it had one.
    Exited { code: Option<i32> },
    /// The query itself failed.
    Unknown,
}

/// The outcome of one sweep over the registry.
#[derive(Clone, Copy, PartialEq, Eq, Debug)]
pub struct LivenessReport {
    /// How many processes were still running.
    pub alive: usize,
    /// How many processes were asked.
    pub total: usize,
    /// No process at all survived although some were launched.
    pub all_exited: bool,
}

/// The number of statuses that say `Running`.
pub open spec fn count_running(statuses: Seq<ProcessStatus>) -> nat
    decreases statuses.len(),
{
    if statuses.len() == 0 {
        0
    } else {
        count_running(statuses.drop_last()) + if statuses.last() is Running {
            1nat
        } else {
            0nat
        }
    }
}

/// The report that a sweep with these answers produces.
pub open spec fn report_of(alive: nat, total: nat) -> LivenessReport {
    LivenessReport {
        alive: alive as usize,
        total: total as usize,
        all_exited: alive == 0 && total > 0,
    }
}

/// Builds the report from the two counts of a finished sweep.
pub fn make_report(alive: usize, total: usize) -> (report: LivenessReport)
    ensures
        report == report_of(alive as nat, total as nat),
{
    LivenessReport { alive, total, all_exited: alive == 0 && total > 0 }
}

/// Sums up the answers of one sweep.
pub fn summarize(statuses: &Vec<ProcessStatus>) -> (report: LivenessReport)
    ensures
        report == report_of(count_running(statuses@), statuses@.len()),
{
    let mut alive: usize = 0;
    let mut i: usize = 0;
    while i < statuses.len()
        invariant
            i <= statuses.len(),
            alive == count_running(statuses@.subrange(0, i as int)),
            alive <= i,
        decreases statuses.len() - i,
    {
        assert(statuses@.subrange(0, i + 1).drop_last() =~= statuses@.subrange(0, i as int));
        if let ProcessStatus::Running = statuses[i] {
            alive += 1;
        }
        i += 1;
    }
    assert(statuses@.subrange(0, i as int) =~= statuses@);
    make_report(alive, statuses.len())
}

} // verus!
