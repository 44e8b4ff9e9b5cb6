//! The closed set of workers and the modules that run them.

use vstd::prelude::*;

verus! {

/// Whether two texts hold the same characters.
pub fn same_text(left: &str, right: &str) -> (same: bool)
    ensures
        same == (left@ == right@),
{
    left.to_owned() == right.to_owned()
}

/// One of the background workers that run beside the server.
#[derive(Clone, Copy, PartialEq, Eq, Structural, Debug)]
pub enum WorkerKind {
    Research,
    AutoTrading,
    News,
}

impl WorkerKind {
    /// The identity under which the worker is requested and logged.
    pub open spec fn identity_text(self) -> Seq<char> {
        match self {
            WorkerKind::Research => "ResearchAgent"@,
            WorkerKind::AutoTrading => "AutoTradingAgent"@,
            WorkerKind::News => "NewsAgent"@,
        }
    }

    /// The module that the dependency manager runs for the worker.
    pub open spec fn module_text(self) -> Seq<char> {
        match self {
            WorkerKind::Research => "valuecell.agents.research_agent"@,
            WorkerKind::AutoTrading => "valuecell.agents.auto_trading_agent"@,
            WorkerKind::News => "valuecell.agents.news_agent"@,
        }
    }

    /// The worker that an identity names, if it names one.
    pub open spec fn resolve(identity: Seq<char>) -> Option<WorkerKind> {
        if identity == "ResearchAgent"@ {
            Some(WorkerKind::Research)
        } else if identity == "AutoTradingAgent"@ {
            Some(WorkerKind::AutoTrading)
        } else if identity == "NewsAgent"@ {
            Some(WorkerKind::News)
        } else {
            None
        }
    }

    /// Looks an identity up in the closed set of workers.
    pub fn from_identity(identity: &str) -> (kind: Option<WorkerKind>)
        ensures
            kind == Self::resolve(identity@),
    {
        if same_text(identity, "ResearchAgent") {
            Some(WorkerKind::Research)
        } else if same_text(identity, "AutoTradingAgent") {
            Some(WorkerKind::AutoTrading)
        } else if same_text(identity, "NewsAgent") {
            Some(WorkerKind::News)
        } else {
            None
        }
    }

    /// The identity under which the worker is requested and logged.
    pub fn identity(self) -> (text: &'static str)
        ensures
            text@ == self.identity_text(),
    {
        match self {
            WorkerKind::Research => "ResearchAgent",
            WorkerKind::AutoTrading => "AutoTradingAgent",
            WorkerKind::News => "NewsAgent",
        }
    }

    /// The module that the dependency manager runs for the worker.
    pub fn module(self) -> (text: &'static str)
        ensures
            text@ == self.module_text(),
    {
        match self {
            WorkerKind::Research => "valuecell.agents.research_agent",
            WorkerKind::AutoTrading => "valuecell.agents.auto_trading_agent",
            WorkerKind::News => "valuecell.agents.news_agent",
        }
    }
}

/// The module of the server process.
pub open spec fn server_module_text() -> Seq<char> {
    "valuecell.server.main"@
}

/// The name under which the server writes its log.
pub open spec fn server_identity_text() -> Seq<char> {
    "backend_server"@
}

/// The module of the server process.
pub fn server_module() -> (text: &'static str)
    ensures
        text@ == server_module_text(),
{
    "valuecell.server.main"
}

/// The name under which the server writes its log.
pub fn server_identity() -> (text: &'static str)
    ensures
        text@ == server_identity_text(),
{
    "backend_server"
}

/// The identities that a supervisor launches unless told otherwise, in launch order.
pub open spec fn default_worker_texts() -> Seq<Seq<char>> {
    seq![
        WorkerKind::Research.identity_text(),
        WorkerKind::AutoTrading.identity_text(),
        WorkerKind::News.identity_text(),
    ]
}

/// The identities that a supervisor launches unless told otherwise, in launch order.
pub fn default_workers() -> (workers: Vec<String>)
    ensures
        workers.deep_view() == default_worker_texts(),
        workers.len() == 3,
{
    let mut workers: Vec<String> = Vec::new();
    workers.push(WorkerKind::Research.identity().to_owned());
    workers.push(WorkerKind::AutoTrading.identity().to_owned());
    workers.push(WorkerKind::News.identity().to_owned());
    assert(workers.deep_view() =~= default_worker_texts());
    workers
}

/// Every worker is found again under its own identity, and under no other.
pub proof fn lemma_identity_round_trip(kind: WorkerKind)
    ensures
        WorkerKind::resolve(kind.identity_text()) == Some(kind),
{
    reveal_strlit("ResearchAgent");
    reveal_strlit("AutoTradingAgent");
    reveal_strlit("NewsAgent");
    assert("ResearchAgent"@.len() == 13);
    assert("AutoTradingAgent"@.len() == 16);
    assert("NewsAgent"@.len() == 9);
}

/// An identity that resolves is the identity of the worker it resolves to.
pub proof fn lemma_resolved_identity(identity: Seq<char>)
    ensures
        match WorkerKind::resolve(identity) {
            Some(kind) => kind.identity_text() == identity,
            None => forall|kind: WorkerKind| kind.identity_text() != identity,
        },
{
}

/// Every default identity names a worker.
pub proof fn lemma_default_workers_resolve(index: int)
    requires
        0 <= index < default_worker_texts().len(),
    ensures
        WorkerKind::resolve(default_worker_texts()[index]) is Some,
{
    lemma_identity_round_trip(WorkerKind::Research);
    lemma_identity_round_trip(WorkerKind::AutoTrading);
    lemma_identity_round_trip(WorkerKind::News);
}

} // verus!
