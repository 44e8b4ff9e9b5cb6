use backend_manager::command::{Arg, Invocation, OutputSink};
use backend_manager::tools::{
    candidates, expand_home, home_or_fallback, SearchStep, Tool, ToolBinding, ToolNotFound,
    ToolSearch,
};

fn strings(items: &[&str]) -> Vec<String> {
    items.iter().map(|s| s.to_string()).collect()
}

fn probe_of(command: &str) -> Invocation {
    Invocation {
        program: command.to_string(),
        args: vec![Arg::Text("--version".to_string())],
        working_dir: None,
        output: OutputSink::Discard,
    }
}

#[test]
fn interpreter_candidates_are_fixed() {
    assert_eq!(candidates(Tool::Interpreter, "/home/op"), strings(&["python3", "python"]));
}

#[test]
fn dependency_manager_candidates_expand_the_home_directory() {
    assert_eq!(
        candidates(Tool::DependencyManager, "/home/op"),
        strings(&["uv", "/home/op/.local/bin/uv", "/usr/local/bin/uv", "/home/op/.cargo/bin/uv"])
    );
}

#[test]
fn expand_home_replaces_every_tilde() {
    assert_eq!(expand_home("~/.cargo/bin/uv", "/home/op"), "/home/op/.cargo/bin/uv");
    assert_eq!(expand_home("uv", "/home/op"), "uv");
    assert_eq!(expand_home("~/a~b", "/h"), "/h/a/hb");
    assert_eq!(expand_home("", "/h"), "");
    assert_eq!(expand_home("~", ""), "");
    assert_eq!(expand_home("~/é/uv", "/home/ö"), "/home/ö/é/uv");
}

#[test]
fn home_falls_back_to_tmp() {
    assert_eq!(home_or_fallback(Some("/home/op".to_string())), "/home/op");
    assert_eq!(home_or_fallback(None), "/tmp");
}

#[test]
fn first_candidate_is_probed_first() {
    let search = ToolSearch::for_tool(Tool::Interpreter, "/home/op");
    assert_eq!(search.pending(), Some(probe_of("python3")));
}

#[test]
fn earlier_of_two_working_candidates_is_selected() {
    let mut search = ToolSearch::new(Tool::DependencyManager, strings(&["a", "b", "c"]));
    assert_eq!(search.record(false), SearchStep::Continue);
    assert_eq!(search.pending(), Some(probe_of("b")));
    assert_eq!(
        search.record(true),
        SearchStep::Resolved(ToolBinding { tool: Tool::DependencyManager, command: "b".to_string() })
    );
}

#[test]
fn first_candidate_wins_when_all_work() {
    let mut search = ToolSearch::for_tool(Tool::Interpreter, "/home/op");
    assert_eq!(
        search.record(true),
        SearchStep::Resolved(ToolBinding { tool: Tool::Interpreter, command: "python3".to_string() })
    );
}

#[test]
fn exhausted_search_lists_every_attempt() {
    let mut search = ToolSearch::for_tool(Tool::DependencyManager, "/home/op");
    assert_eq!(search.record(false), SearchStep::Continue);
    assert_eq!(search.record(false), SearchStep::Continue);
    assert_eq!(search.record(false), SearchStep::Continue);
    assert_eq!(
        search.record(false),
        SearchStep::Exhausted(ToolNotFound {
            tool: Tool::DependencyManager,
            attempted: strings(&[
                "uv",
                "/home/op/.local/bin/uv",
                "/usr/local/bin/uv",
                "/home/op/.cargo/bin/uv"
            ]),
        })
    );
    assert_eq!(search.pending(), None);
}

#[test]
fn exhausted_search_stays_exhausted() {
    let mut search = ToolSearch::new(Tool::Interpreter, strings(&["only"]));
    let exhausted = SearchStep::Exhausted(ToolNotFound {
        tool: Tool::Interpreter,
        attempted: strings(&["only"]),
    });
    assert_eq!(search.record(false), exhausted);
    assert_eq!(search.record(true), exhausted);
    assert_eq!(search.record(false), exhausted);
}

#[test]
fn search_without_candidates_is_exhausted_at_once() {
    let mut search = ToolSearch::new(Tool::Interpreter, Vec::new());
    assert_eq!(search.pending(), None);
    assert_eq!(
        search.record(true),
        SearchStep::Exhausted(ToolNotFound { tool: Tool::Interpreter, attempted: Vec::new() })
    );
}
