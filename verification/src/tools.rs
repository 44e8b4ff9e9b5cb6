//! Finding the external tools: the interpreter and the dependency manager.
//!
//! Each tool has an ordered list of candidate commands. The candidates are probed
//! one after another, and the first one that can be launched is the tool.

use crate::command::{version_probe, Invocation, InvocationView};
use vstd::prelude::*;

verus! {

/// A tool that the runtime cannot do without.
#[derive(Clone, Copy, PartialEq, Eq, Structural, Debug)]
pub enum Tool {
    Interpreter,
    DependencyManager,
}

/// A tool together with the command under which it was found.
#[derive(Debug, PartialEq, Eq)]
pub struct ToolBinding {
    pub tool: Tool,
    pub command: String,
}

/// No candidate of a tool could be launched.
#[derive(Debug, PartialEq, Eq)]
pub struct ToolNotFound {
    pub tool: Tool,
    /// Every command that was tried, in the order of the attempts.
    pub attempted: Vec<String>,
}

/// The home directory that stands in when the host knows none.
pub open spec fn fallback_home() -> Seq<char> {
    "/tmp"@
}

/// The home directory to expand candidates with.
pub fn home_or_fallback(home: Option<String>) -> (chosen: String)
    ensures
        chosen@ == match home {
            Some(given) => given@,
            None => fallback_home(),
        },
{
    match home {
        Some(given) => given,
        None => "/tmp".to_owned(),
    }
}

/// `pattern` with every `~` replaced by `home`.
pub open spec fn expanded(pattern: Seq<char>, home: Seq<char>) -> Seq<char>
    decreases pattern.len(),
{
    if pattern.len() == 0 {
        Seq::<char>::empty()
    } else {
        expanded(pattern.drop_last(), home) + if pattern.last() == '~' {
            home
        } else {
            seq![pattern.last()]
        }
    }
}

/// Replaces every `~` of `pattern` by `home`.
pub fn expand_home(pattern: &str, home: &str) -> (path: String)
    ensures
        path@ == expanded(pattern@, home@),
{
    let length = pattern.unicode_len();
    let mut path = String::new();
    let mut i: usize = 0;
    while i < length
        invariant
            length == pattern@.len(),
            i <= length,
            path@ == expanded(pattern@.subrange(0, i as int), home@),
        decreases length - i,
    {
        assert(pattern@.subrange(0, i + 1).drop_last() =~= pattern@.subrange(0, i as int));
        if pattern.get_char(i) == '~' {
            path.append(home);
        } else {
            let piece = pattern.substring_char(i, i + 1);
            assert(piece@ =~= seq![pattern@[i as int]]);
            path.append(piece);
        }
        i += 1;
    }
    assert(pattern@.subrange(0, i as int) =~= pattern@);
    path
}

/// The commands under which the interpreter is looked for, in order.
pub open spec fn interpreter_candidates() -> Seq<Seq<char>> {
    seq!["python3"@, "python"@]
}

/// The commands under which the dependency manager is looked for, in order: the
/// bare command first, then the places where it is commonly installed.
pub open spec fn dependency_manager_candidates(home: Seq<char>) -> Seq<Seq<char>> {
    seq![
        expanded("uv"@, home),
        expanded("~/.local/bin/uv"@, home),
        expanded("/usr/local/bin/uv"@, home),
        expanded("~/.cargo/bin/uv"@, home),
    ]
}

/// The candidates of a tool.
pub open spec fn candidates_of(tool: Tool, home: Seq<char>) -> Seq<Seq<char>> {
    match tool {
        Tool::Interpreter => interpreter_candidates(),
        Tool::DependencyManager => dependency_manager_candidates(home),
    }
}

/// Lists the candidates of a tool, in the order in which they are to be probed.
pub fn candidates(tool: Tool, home: &str) -> (list: Vec<String>)
    ensures
        list.deep_view() == candidates_of(tool, home@),
{
    let mut list: Vec<String> = Vec::new();
    match tool {
        Tool::Interpreter => {
            list.push("python3".to_owned());
            list.push("python".to_owned());
            assert(list.deep_view() =~= interpreter_candidates());
        },
        Tool::DependencyManager => {
            list.push(expand_home("uv", home));
            list.push(expand_home("~/.local/bin/uv", home));
            list.push(expand_home("/usr/local/bin/uv", home));
            list.push(expand_home("~/.cargo/bin/uv", home));
            assert(list.deep_view() =~= dependency_manager_candidates(home@));
        },
    }
    list
}

/// The mathematical value of a search: which candidates there are and how many of
/// them have failed their probe.
pub struct SearchView {
    pub tool: Tool,
    pub candidates: Seq<Seq<char>>,
    pub position: nat,
}

/// How a search stands after one probe.
pub enum SearchResult {
    /// The probed candidate could be launched: it is the tool.
    Resolved { tool: Tool, command: Seq<char> },
    /// The probed candidate failed and another one is to be probed.
    Continue,
    /// The last candidate failed; `attempted` lists all of them.
    Exhausted { tool: Tool, attempted: Seq<Seq<char>> },
}

impl SearchView {
    /// The search has found the tool under candidate `index`.
    pub open spec fn resolved(self, index: nat) -> SearchResult {
        SearchResult::Resolved { tool: self.tool, command: self.candidates[index as int] }
    }

    /// The search has tried every candidate in vain.
    pub open spec fn exhausted(self) -> SearchResult {
        SearchResult::Exhausted { tool: self.tool, attempted: self.candidates }
    }

    /// The candidate that is to be probed next, if one is left.
    pub open spec fn pending(self) -> Option<Seq<char>> {
        if self.position < self.candidates.len() {
            Some(self.candidates[self.position as int])
        } else {
            None
        }
    }

    /// The search after the pending candidate was probed, and what the probe
    /// settled. A candidate that could not be launched is passed over for good.
    pub open spec fn record(self, responded: bool) -> (SearchView, SearchResult) {
        if self.position >= self.candidates.len() {
            (self, self.exhausted())
        } else if responded {
            (self, self.resolved(self.position))
        } else {
            let next = SearchView { position: self.position + 1, ..self };
            if next.position >= self.candidates.len() {
                (next, self.exhausted())
            } else {
                (next, SearchResult::Continue)
            }
        }
    }

    /// The result of probing on until the search is settled, where `responds[i]`
    /// says whether candidate `i` can be launched.
    pub open spec fn run(self, responds: Seq<bool>) -> SearchResult
        decreases self.candidates.len() - self.position,
    {
        if self.position >= self.candidates.len() {
            self.exhausted()
        } else {
            let (next, result) = self.record(responds[self.position as int]);
            match result {
                SearchResult::Continue => next.run(responds),
                _ => result,
            }
        }
    }
}

/// The search for one tool.
#[derive(Debug)]
pub struct ToolSearch {
    tool: Tool,
    candidates: Vec<String>,
    position: usize,
}

impl View for ToolSearch {
    type V = SearchView;

    closed spec fn view(&self) -> SearchView {
        SearchView {
            tool: self.tool,
            candidates: self.candidates.deep_view(),
            position: self.position as nat,
        }
    }
}

/// What one probe settled.
#[derive(Debug, PartialEq, Eq)]
pub enum SearchStep {
    /// The probed candidate could be launched: it is the tool.
    Resolved(ToolBinding),
    /// The probed candidate failed and another one is to be probed.
    Continue,
    /// The last candidate failed.
    Exhausted(ToolNotFound),
}

impl View for SearchStep {
    type V = SearchResult;

    open spec fn view(&self) -> SearchResult {
        match self {
            SearchStep::Resolved(binding) => SearchResult::Resolved {
                tool: binding.tool,
                command: binding.command@,
            },
            SearchStep::Continue => SearchResult::Continue,
            SearchStep::Exhausted(error) => SearchResult::Exhausted {
                tool: error.tool,
                attempted: error.attempted.deep_view(),
            },
        }
    }
}

impl ToolSearch {
    /// A search that has probed nothing yet.
    pub fn new(tool: Tool, candidates: Vec<String>) -> (search: ToolSearch)
        ensures
            search@ == (SearchView { tool, candidates: candidates.deep_view(), position: 0 }),
    {
        ToolSearch { tool, candidates, position: 0 }
    }

    /// The search for `tool` among its own candidates.
    pub fn for_tool(tool: Tool, home: &str) -> (search: ToolSearch)
        ensures
            search@ == (SearchView { tool, candidates: candidates_of(tool, home@), position: 0 }),
    {
        ToolSearch::new(tool, candidates(tool, home))
    }

    /// The probe that the host has to make next, if a candidate is left.
    pub fn pending(&self) -> (probe: Option<Invocation>)
        ensures
            probe.deep_view() == match self@.pending() {
                Some(candidate) => Some(version_probe(candidate)),
                None => None::<InvocationView>,
            },
    {
        if self.position < self.candidates.len() {
            Some(Invocation::version_probe(self.candidates[self.position].as_str()))
        } else {
            None
        }
    }

    /// Takes in the answer to the pending probe: `responded` says whether the
    /// candidate could be launched.
    pub fn record(&mut self, responded: bool) -> (step: SearchStep)
        ensures
            (final(self)@, step@) == old(self)@.record(responded),
    {
        if self.position >= self.candidates.len() {
            let attempted = crate::path::copy_prefix(&self.candidates, self.candidates.len());
            assert(attempted.deep_view() =~= self.candidates.deep_view());
            return SearchStep::Exhausted(ToolNotFound { tool: self.tool, attempted });
        }
        if responded {
            let command = self.candidates[self.position].clone();
            return SearchStep::Resolved(ToolBinding { tool: self.tool, command });
        }
        self.position = self.position + 1;
        if self.position >= self.candidates.len() {
            let attempted = crate::path::copy_prefix(&self.candidates, self.candidates.len());
            assert(attempted.deep_view() =~= self.candidates.deep_view());
            SearchStep::Exhausted(ToolNotFound { tool: self.tool, attempted })
        } else {
            SearchStep::Continue
        }
    }
}

/// The first candidate from `from` on that responds; the number of candidates if
/// none does.
pub open spec fn first_responding(responds: Seq<bool>, from: nat, count: nat) -> nat
    decreases count - from,
{
    if from >= count {
        count
    } else if responds[from as int] {
        from
    } else {
        first_responding(responds, from + 1, count)
    }
}

/// A search that is run to its end resolves to the first candidate that responds,
/// and is exhausted, with every candidate listed, if none responds.
pub proof fn lemma_run_finds_first(search: SearchView, responds: Seq<bool>)
    requires
        search.position <= search.candidates.len(),
    ensures
        ({
            let first = first_responding(responds, search.position, search.candidates.len());
            &&& search.position <= first <= search.candidates.len()
            &&& forall|i: int| search.position <= i < first ==> !responds[i]
            &&& first < search.candidates.len() ==> responds[first as int] && search.run(responds)
                == search.resolved(first)
            &&& first == search.candidates.len() ==> search.run(responds) == search.exhausted()
        }),
    decreases search.candidates.len() - search.position,
{
    if search.position < search.candidates.len() && !responds[search.position as int] {
        let next = search.record(false).0;
        lemma_run_finds_first(next, responds);
    }
}

/// Of two candidates that respond, the later one is never chosen over the
/// earlier: the search resolves to a responding candidate at or before the
/// earlier of the two.
pub proof fn lemma_earlier_candidate_wins(
    tool: Tool,
    candidates: Seq<Seq<char>>,
    responds: Seq<bool>,
    earlier: int,
    later: int,
)
    requires
        0 <= earlier < later < candidates.len(),
        responds[earlier],
        responds[later],
        forall|i: int| 0 <= i < earlier ==> !responds[i],
    ensures
        (SearchView { tool, candidates, position: 0 }).run(responds) == (SearchResult::Resolved {
            tool,
            command: candidates[earlier],
        }),
{
    let search = SearchView { tool, candidates, position: 0 };
    lemma_run_finds_first(search, responds);
    let first = first_responding(responds, 0, candidates.len());
    if first > earlier {
        assert(!responds[earlier]);
    }
    if first < earlier {
        assert(responds[first as int]);
    }
}

/// Where no candidate responds, the search ends exhausted and lists every
/// candidate as attempted.
pub proof fn lemma_exhausted_lists_all(tool: Tool, candidates: Seq<Seq<char>>, responds: Seq<bool>)
    requires
        forall|i: int| 0 <= i < candidates.len() ==> !responds[i],
    ensures
        (SearchView { tool, candidates, position: 0 }).run(responds) == (SearchResult::Exhausted {
            tool,
            attempted: candidates,
        }),
{
    let search = SearchView { tool, candidates, position: 0 };
    lemma_run_finds_first(search, responds);
    let first = first_responding(responds, 0, candidates.len());
    if first < candidates.len() {
        assert(responds[first as int]);
    }
}

} // verus!
