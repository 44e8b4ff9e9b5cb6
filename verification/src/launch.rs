//! The decision whether, and how, one process is launched.

use crate::command::{module_run, Invocation, InvocationView};
use crate::layout::{LocationView, RuntimeLocation};
use crate::path::{FsPath, PathView};
use crate::worker::{
    server_identity, server_identity_text, server_module, server_module_text, WorkerKind,
};
use vstd::prelude::*;

verus! {

/// Why one process was not launched. The supervisor records such a failure and
/// goes on with the next process.
#[derive(Debug, PartialEq, Eq)]
pub enum LaunchError {
    /// The identity names no worker.
    UnknownWorker { identity: String },
    /// A path that the process needs was missing just before the launch.
    PreconditionFailed { missing: FsPath },
    /// The host could not open the log file or create the process.
    SpawnFailed { reason: String },
}

/// The mathematical value of a `LaunchError`.
pub enum LaunchErrorView {
    UnknownWorker { identity: Seq<char> },
    PreconditionFailed { missing: PathView },
    SpawnFailed { reason: Seq<char> },
}

impl View for LaunchError {
    type V = LaunchErrorView;

    open spec fn view(&self) -> LaunchErrorView {
        match self {
            LaunchError::UnknownWorker { identity } => LaunchErrorView::UnknownWorker {
                identity: identity@,
            },
            LaunchError::PreconditionFailed { missing } => LaunchErrorView::PreconditionFailed {
                missing: missing@,
            },
            LaunchError::SpawnFailed { reason } => LaunchErrorView::SpawnFailed { reason: reason@ },
        }
    }
}

/// The launch of the worker named `identity`, given what the filesystem looked
/// like just before: an unknown identity is refused first, then a missing runtime
/// root, then a missing configuration file.
pub open spec fn worker_launch(
    identity: Seq<char>,
    tool: Seq<char>,
    location: LocationView,
    root_present: bool,
    config_present: bool,
) -> Result<InvocationView, LaunchErrorView> {
    match WorkerKind::resolve(identity) {
        None => Err(LaunchErrorView::UnknownWorker { identity }),
        Some(kind) => if !root_present {
            Err(LaunchErrorView::PreconditionFailed { missing: location.runtime_root })
        } else if !config_present {
            Err(LaunchErrorView::PreconditionFailed { missing: location.config_path })
        } else {
            Ok(module_run(tool, location, kind.module_text(), identity))
        },
    }
}

/// The launch of the server.
pub open spec fn server_launch(tool: Seq<char>, location: LocationView) -> InvocationView {
    module_run(tool, location, server_module_text(), server_identity_text())
}

/// Decides the launch of the worker named `identity`.
pub fn plan_worker_launch(
    identity: &str,
    tool: &str,
    location: &RuntimeLocation,
    root_present: bool,
    config_present: bool,
) -> (plan: Result<Invocation, LaunchError>)
    ensures
        match plan {
            Ok(invocation) => worker_launch(
                identity@,
                tool@,
                location@,
                root_present,
                config_present,
            ) == Ok::<InvocationView, LaunchErrorView>(invocation@),
            Err(error) => worker_launch(identity@, tool@, location@, root_present, config_present)
                == Err::<InvocationView, LaunchErrorView>(error@),
        },
{
    let kind = match WorkerKind::from_identity(identity) {
        None => return Err(LaunchError::UnknownWorker { identity: identity.to_owned() }),
        Some(kind) => kind,
    };
    if !root_present {
        return Err(LaunchError::PreconditionFailed { missing: location.runtime_root.clone() });
    }
    if !config_present {
        return Err(LaunchError::PreconditionFailed { missing: location.config_path.clone() });
    }
    Ok(Invocation::module_run(tool, location, kind.module(), identity))
}

/// Decides the launch of the server, which is attempted whatever the filesystem
/// looks like.
pub fn plan_server_launch(tool: &str, location: &RuntimeLocation) -> (plan: Invocation)
    ensures
        plan@ == server_launch(tool@, location@),
{
    Invocation::module_run(tool, location, server_module(), server_identity())
}

} // verus!
