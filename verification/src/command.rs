//! Invocations of external programs, as values that the host carries out.

use crate::layout::{LocationView, RuntimeLocation};
use crate::path::{FsPath, PathView};
use vstd::prelude::*;

verus! {

/// One argument of an invocation.
#[derive(Debug, PartialEq, Eq)]
pub enum Arg {
    /// Passed as written.
    Text(String),
    /// A path, passed in the host's own encoding.
    Path(FsPath),
}

/// The mathematical value of an `Arg`.
pub enum ArgView {
    Text(Seq<char>),
    Path(PathView),
}

impl View for Arg {
    type V = ArgView;

    open spec fn view(&self) -> ArgView {
        match self {
            Arg::Text(text) => ArgView::Text(text@),
            Arg::Path(path) => ArgView::Path(path@),
        }
    }
}

impl DeepView for Arg {
    type V = ArgView;

    open spec fn deep_view(&self) -> ArgView {
        self@
    }
}

/// Where the output of an invoked program goes.
#[derive(Debug, PartialEq, Eq)]
pub enum OutputSink {
    /// Both streams are thrown away.
    Discard,
    /// Both streams are collected and reported back.
    Capture,
    /// Both streams are appended to this file, which is created if missing.
    Append(FsPath),
}

/// The mathematical value of an `OutputSink`.
pub enum SinkView {
    Discard,
    Capture,
    Append(PathView),
}

impl View for OutputSink {
    type V = SinkView;

    open spec fn view(&self) -> SinkView {
        match self {
            OutputSink::Discard => SinkView::Discard,
            OutputSink::Capture => SinkView::Capture,
            OutputSink::Append(file) => SinkView::Append(file@),
        }
    }
}

/// One invocation of an external program.
#[derive(Debug, PartialEq, Eq)]
pub struct Invocation {
    pub program: String,
    pub args: Vec<Arg>,
    /// The working directory, if it is not the host's own.
    pub working_dir: Option<FsPath>,
    pub output: OutputSink,
}

/// The mathematical value of an `Invocation`.
pub struct InvocationView {
    pub program: Seq<char>,
    pub args: Seq<ArgView>,
    pub working_dir: Option<PathView>,
    pub output: SinkView,
}

impl View for Invocation {
    type V = InvocationView;

    open spec fn view(&self) -> InvocationView {
        InvocationView {
            program: self.program@,
            args: self.args.deep_view(),
            working_dir: self.working_dir.deep_view(),
            output: self.output@,
        }
    }
}

impl DeepView for Invocation {
    type V = InvocationView;

    open spec fn deep_view(&self) -> InvocationView {
        self@
    }
}

/// Asks a candidate for its version, to learn whether it can be launched at all.
pub open spec fn version_probe(candidate: Seq<char>) -> InvocationView {
    InvocationView {
        program: candidate,
        args: seq![ArgView::Text("--version"@)],
        working_dir: None,
        output: SinkView::Discard,
    }
}

/// Synchronises the runtime's dependencies against its lock file, with the locked
/// versions only.
pub open spec fn dependency_sync(tool: Seq<char>, location: LocationView) -> InvocationView {
    InvocationView {
        program: tool,
        args: seq![ArgView::Text("sync"@), ArgView::Text("--frozen"@)],
        working_dir: Some(location.runtime_root),
        output: SinkView::Capture,
    }
}

/// Runs the storage initialisation script once.
pub open spec fn storage_init(tool: Seq<char>, location: LocationView) -> InvocationView {
    InvocationView {
        program: tool,
        args: seq![
            ArgView::Text("run"@),
            ArgView::Text("--env-file"@),
            ArgView::Path(location.config_path),
            ArgView::Path(location.storage_script()),
        ],
        working_dir: Some(location.runtime_root),
        output: SinkView::Capture,
    }
}

/// Runs one module as a long-lived process that logs under `identity`.
pub open spec fn module_run(
    tool: Seq<char>,
    location: LocationView,
    module: Seq<char>,
    identity: Seq<char>,
) -> InvocationView {
    InvocationView {
        program: tool,
        args: seq![
            ArgView::Text("run"@),
            ArgView::Text("--env-file"@),
            ArgView::Path(location.config_path),
            ArgView::Text("-m"@),
            ArgView::Text(module),
        ],
        working_dir: Some(location.runtime_root),
        output: SinkView::Append(location.log_file(identity)),
    }
}

impl Invocation {
    /// Asks a candidate for its version, to learn whether it can be launched at all.
    pub fn version_probe(candidate: &str) -> (invocation: Invocation)
        ensures
            invocation@ == version_probe(candidate@),
    {
        let mut args: Vec<Arg> = Vec::new();
        args.push(Arg::Text("--version".to_owned()));
        assert(args.deep_view() =~= seq![ArgView::Text("--version"@)]);
        Invocation {
            program: candidate.to_owned(),
            args,
            working_dir: None,
            output: OutputSink::Discard,
        }
    }

    /// Synchronises the runtime's dependencies against its lock file, with the
    /// locked versions only.
    pub fn dependency_sync(tool: &str, location: &RuntimeLocation) -> (invocation: Invocation)
        ensures
            invocation@ == dependency_sync(tool@, location@),
    {
        let mut args: Vec<Arg> = Vec::new();
        args.push(Arg::Text("sync".to_owned()));
        args.push(Arg::Text("--frozen".to_owned()));
        assert(args.deep_view() =~= seq![ArgView::Text("sync"@), ArgView::Text("--frozen"@)]);
        Invocation {
            program: tool.to_owned(),
            args,
            working_dir: Some(location.runtime_root.clone()),
            output: OutputSink::Capture,
        }
    }

    /// Runs the storage initialisation script once.
    pub fn storage_init(tool: &str, location: &RuntimeLocation) -> (invocation: Invocation)
        ensures
            invocation@ == storage_init(tool@, location@),
    {
        let mut args: Vec<Arg> = Vec::new();
        args.push(Arg::Text("run".to_owned()));
        args.push(Arg::Text("--env-file".to_owned()));
        args.push(Arg::Path(location.config_path.clone()));
        args.push(Arg::Path(location.storage_script()));
        assert(args.deep_view() =~= storage_init(tool@, location@).args);
        Invocation {
            program: tool.to_owned(),
            args,
            working_dir: Some(location.runtime_root.clone()),
            output: OutputSink::Capture,
        }
    }

    /// Runs one module as a long-lived process that logs under `identity`.
    pub fn module_run(
        tool: &str,
        location: &RuntimeLocation,
        module: &str,
        identity: &str,
    ) -> (invocation: Invocation)
        ensures
            invocation@ == module_run(tool@, location@, module@, identity@),
    {
        let mut args: Vec<Arg> = Vec::new();
        args.push(Arg::Text("run".to_owned()));
        args.push(Arg::Text("--env-file".to_owned()));
        args.push(Arg::Path(location.config_path.clone()));
        args.push(Arg::Text("-m".to_owned()));
        args.push(Arg::Text(module.to_owned()));
        assert(args.deep_view() =~= module_run(tool@, location@, module@, identity@).args);
        Invocation {
            program: tool.to_owned(),
            args,
            working_dir: Some(location.runtime_root.clone()),
            output: OutputSink::Append(location.log_file(identity)),
        }
    }
}

} // verus!
