use backend_manager::command::{Arg, Invocation, OutputSink};
use backend_manager::config::{plan_bootstrap, ConfigAction, ConfigError};
use backend_manager::launch::{plan_server_launch, plan_worker_launch, LaunchError};
use backend_manager::layout::RuntimeLocation;
use backend_manager::liveness::{make_report, summarize, LivenessReport, ProcessStatus};
use backend_manager::path::FsPath;
use backend_manager::registry::ProcessRegistry;
use backend_manager::worker::{
    default_workers, same_text, server_identity, server_module, WorkerKind,
};

fn path(anchor: &str, segments: &[&str]) -> FsPath {
    FsPath::new(anchor.to_string(), segments.iter().map(|s| s.to_string()).collect())
}

fn text(value: &str) -> Arg {
    Arg::Text(value.to_string())
}

fn location() -> RuntimeLocation {
    RuntimeLocation {
        runtime_root: path("/", &["srv", "app", "python"]),
        config_path: path("/", &["srv", "app", ".env"]),
        log_directory: path("/", &["var", "log", "app", "backend"]),
    }
}

#[test]
fn identities_map_to_modules() {
    assert_eq!(WorkerKind::from_identity("ResearchAgent"), Some(WorkerKind::Research));
    assert_eq!(WorkerKind::from_identity("AutoTradingAgent"), Some(WorkerKind::AutoTrading));
    assert_eq!(WorkerKind::from_identity("NewsAgent"), Some(WorkerKind::News));
    assert_eq!(WorkerKind::Research.module(), "valuecell.agents.research_agent");
    assert_eq!(WorkerKind::AutoTrading.module(), "valuecell.agents.auto_trading_agent");
    assert_eq!(WorkerKind::News.module(), "valuecell.agents.news_agent");
    assert_eq!(server_module(), "valuecell.server.main");
    assert_eq!(server_identity(), "backend_server");
}

#[test]
fn unknown_identities_name_no_worker() {
    assert_eq!(WorkerKind::from_identity("researchagent"), None);
    assert_eq!(WorkerKind::from_identity("ResearchAgent "), None);
    assert_eq!(WorkerKind::from_identity(""), None);
    assert_eq!(WorkerKind::from_identity("backend_server"), None);
}

#[test]
fn every_worker_is_found_under_its_identity() {
    for kind in [WorkerKind::Research, WorkerKind::AutoTrading, WorkerKind::News] {
        assert_eq!(WorkerKind::from_identity(kind.identity()), Some(kind));
    }
}

#[test]
fn default_workers_are_the_three_agents_in_order() {
    assert_eq!(default_workers(), vec!["ResearchAgent", "AutoTradingAgent", "NewsAgent"]);
}

#[test]
fn same_text_compares_characters() {
    assert!(same_text("uv", "uv"));
    assert!(!same_text("uv", "uvx"));
    assert!(same_text("", ""));
}

#[test]
fn version_probe_discards_output() {
    assert_eq!(
        Invocation::version_probe("python3"),
        Invocation {
            program: "python3".to_string(),
            args: vec![text("--version")],
            working_dir: None,
            output: OutputSink::Discard,
        }
    );
}

#[test]
fn dependency_sync_uses_locked_versions_in_the_runtime_root() {
    assert_eq!(
        Invocation::dependency_sync("/usr/local/bin/uv", &location()),
        Invocation {
            program: "/usr/local/bin/uv".to_string(),
            args: vec![text("sync"), text("--frozen")],
            working_dir: Some(path("/", &["srv", "app", "python"])),
            output: OutputSink::Capture,
        }
    );
}

#[test]
fn storage_init_runs_the_script_with_the_config_applied() {
    assert_eq!(
        Invocation::storage_init("uv", &location()),
        Invocation {
            program: "uv".to_string(),
            args: vec![
                text("run"),
                text("--env-file"),
                Arg::Path(path("/", &["srv", "app", ".env"])),
                Arg::Path(path(
                    "/",
                    &["srv", "app", "python", "valuecell", "server", "db", "init_db.py"]
                )),
            ],
            working_dir: Some(path("/", &["srv", "app", "python"])),
            output: OutputSink::Capture,
        }
    );
}

#[test]
fn worker_launch_runs_the_module_and_logs_under_the_identity() {
    assert_eq!(
        plan_worker_launch("NewsAgent", "uv", &location(), true, true),
        Ok(Invocation {
            program: "uv".to_string(),
            args: vec![
                text("run"),
                text("--env-file"),
                Arg::Path(path("/", &["srv", "app", ".env"])),
                text("-m"),
                text("valuecell.agents.news_agent"),
            ],
            working_dir: Some(path("/", &["srv", "app", "python"])),
            output: OutputSink::Append(path("/", &["var", "log", "app", "backend", "NewsAgent.log"])),
        })
    );
}

#[test]
fn unknown_worker_is_refused_first() {
    assert_eq!(
        plan_worker_launch("Nobody", "uv", &location(), false, false),
        Err(LaunchError::UnknownWorker { identity: "Nobody".to_string() })
    );
    assert_eq!(
        plan_worker_launch("Nobody", "uv", &location(), true, true),
        Err(LaunchError::UnknownWorker { identity: "Nobody".to_string() })
    );
}

#[test]
fn missing_runtime_root_is_named() {
    assert_eq!(
        plan_worker_launch("ResearchAgent", "uv", &location(), false, true),
        Err(LaunchError::PreconditionFailed { missing: path("/", &["srv", "app", "python"]) })
    );
    assert_eq!(
        plan_worker_launch("ResearchAgent", "uv", &location(), false, false),
        Err(LaunchError::PreconditionFailed { missing: path("/", &["srv", "app", "python"]) })
    );
}

#[test]
fn missing_config_file_is_named() {
    assert_eq!(
        plan_worker_launch("ResearchAgent", "uv", &location(), true, false),
        Err(LaunchError::PreconditionFailed { missing: path("/", &["srv", "app", ".env"]) })
    );
}

#[test]
fn server_launch_runs_the_server_module() {
    assert_eq!(
        plan_server_launch("uv", &location()),
        Invocation {
            program: "uv".to_string(),
            args: vec![
                text("run"),
                text("--env-file"),
                Arg::Path(path("/", &["srv", "app", ".env"])),
                text("-m"),
                text("valuecell.server.main"),
            ],
            working_dir: Some(path("/", &["srv", "app", "python"])),
            output: OutputSink::Append(path(
                "/",
                &["var", "log", "app", "backend", "backend_server.log"]
            )),
        }
    );
}

#[test]
fn existing_config_is_never_touched() {
    assert_eq!(plan_bootstrap(&location(), true, true), Ok(ConfigAction::Keep));
    assert_eq!(plan_bootstrap(&location(), true, false), Ok(ConfigAction::Keep));
    assert_eq!(plan_bootstrap(&location(), true, true), Ok(ConfigAction::Keep));
}

#[test]
fn missing_config_is_copied_from_the_template() {
    assert_eq!(
        plan_bootstrap(&location(), false, true),
        Ok(ConfigAction::CopyTemplate {
            from: path("/", &["srv", "app", ".env.example"]),
            to: path("/", &["srv", "app", ".env"]),
        })
    );
}

#[test]
fn missing_config_and_template_are_reported() {
    assert_eq!(
        plan_bootstrap(&location(), false, false),
        Ok(ConfigAction::ReportMissing {
            template: path("/", &["srv", "app", ".env.example"]),
            config: path("/", &["srv", "app", ".env"]),
        })
    );
}

#[test]
fn runtime_root_without_parent_has_no_template_location() {
    let rootless = RuntimeLocation {
        runtime_root: path("/", &[]),
        config_path: path("/", &[".env"]),
        log_directory: path("/", &["logs"]),
    };
    assert_eq!(plan_bootstrap(&rootless, false, true), Err(ConfigError::TemplateLocationUnavailable));
    assert_eq!(plan_bootstrap(&rootless, true, true), Ok(ConfigAction::Keep));
}

#[test]
fn summary_counts_running_processes() {
    let statuses = vec![
        ProcessStatus::Running,
        ProcessStatus::Exited { code: Some(1) },
        ProcessStatus::Running,
        ProcessStatus::Unknown,
    ];
    assert_eq!(summarize(&statuses), LivenessReport { alive: 2, total: 4, all_exited: false });
}

#[test]
fn summary_flags_when_nothing_survived() {
    let statuses = vec![ProcessStatus::Exited { code: Some(0) }, ProcessStatus::Exited { code: None }];
    assert_eq!(summarize(&statuses), LivenessReport { alive: 0, total: 2, all_exited: true });
    assert_eq!(summarize(&vec![ProcessStatus::Unknown]), make_report(0, 1));
}

#[test]
fn empty_sweep_is_not_flagged() {
    assert_eq!(summarize(&Vec::new()), LivenessReport { alive: 0, total: 0, all_exited: false });
    assert_eq!(make_report(0, 0), LivenessReport { alive: 0, total: 0, all_exited: false });
    assert_eq!(make_report(4, 4), LivenessReport { alive: 4, total: 4, all_exited: false });
    assert_eq!(make_report(0, 4), LivenessReport { alive: 0, total: 4, all_exited: true });
}

#[test]
fn registry_hands_out_everything_once() {
    let mut registry: ProcessRegistry<u32> = ProcessRegistry::new();
    assert!(registry.is_empty());
    registry.push(11);
    registry.push(22);
    registry.push(33);
    assert_eq!(registry.len(), 3);
    assert!(!registry.is_empty());
    assert_eq!(registry.drain(), vec![11, 22, 33]);
    assert_eq!(registry.len(), 0);
    assert_eq!(registry.drain(), Vec::<u32>::new());
}

#[test]
fn registry_lends_entries_in_place() {
    let mut registry: ProcessRegistry<u32> = ProcessRegistry::new();
    registry.push(11);
    registry.push(22);
    *registry.entry_mut(1) += 1;
    assert_eq!(*registry.entry_mut(0), 11);
    assert_eq!(registry.drain(), vec![11, 23]);
}
