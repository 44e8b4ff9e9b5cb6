use backend_manager::layout::{
    probe_targets, DeploymentMode, DirProbe, HostLayout, ResolutionError, RuntimeLocation,
};
use backend_manager::path::FsPath;

fn path(anchor: &str, segments: &[&str]) -> FsPath {
    FsPath::new(anchor.to_string(), segments.iter().map(|s| s.to_string()).collect())
}

fn miss() -> DirProbe {
    DirProbe { runtime_dir_present: false, manifest_present: false }
}

fn hit() -> DirProbe {
    DirProbe { runtime_dir_present: true, manifest_present: true }
}

/// An executable five levels below `/work/project`, which is the only project root.
fn checkout() -> HostLayout {
    HostLayout {
        executable: Some(path(
            "/",
            &["work", "project", "frontend", "src-tauri", "target", "debug", "app"],
        )),
        ancestor_probes: vec![miss(), miss(), miss(), miss(), hit(), miss(), miss()],
        resource_dir: None,
        log_area: Some(path("/", &["home", "op", ".local", "share", "app", "logs"])),
    }
}

#[test]
fn development_finds_the_project_root_above_the_executable() {
    let location = RuntimeLocation::resolve(DeploymentMode::Development, &checkout()).unwrap();
    assert_eq!(location.runtime_root, path("/", &["work", "project", "python"]));
    assert_eq!(location.config_path, path("/", &["work", "project", ".env"]));
    assert_eq!(
        location.log_directory,
        path("/", &["home", "op", ".local", "share", "app", "logs", "backend"])
    );
}

#[test]
fn resolution_depends_on_the_report_alone() {
    let first = RuntimeLocation::resolve(DeploymentMode::Development, &checkout());
    let second = RuntimeLocation::resolve(DeploymentMode::Development, &checkout());
    assert_eq!(first, second);
    let mut packaged = checkout();
    packaged.resource_dir = Some(path("/", &["opt", "app"]));
    let third = RuntimeLocation::resolve(DeploymentMode::Packaged, &packaged);
    let fourth = RuntimeLocation::resolve(DeploymentMode::Packaged, &packaged);
    assert_eq!(third, fourth);
}

#[test]
fn reports_of_the_same_fixture_resolve_alike() {
    let plain = checkout();
    let mut padded = checkout();
    padded.ancestor_probes.push(hit());
    padded.ancestor_probes.push(miss());
    padded.resource_dir = Some(path("/", &["elsewhere"]));
    assert_eq!(
        RuntimeLocation::resolve(DeploymentMode::Development, &plain),
        RuntimeLocation::resolve(DeploymentMode::Development, &padded)
    );
    let mut rootless = checkout();
    rootless.ancestor_probes = vec![miss(); 7];
    let mut rootless_padded = checkout();
    rootless_padded.ancestor_probes = vec![miss(), miss(), miss(), miss(), miss(), miss(), miss(), hit()];
    assert_eq!(
        RuntimeLocation::resolve(DeploymentMode::Development, &rootless),
        RuntimeLocation::resolve(DeploymentMode::Development, &rootless_padded)
    );
}

#[test]
fn development_takes_the_nearest_of_two_roots() {
    let mut host = checkout();
    host.ancestor_probes = vec![miss(), miss(), hit(), miss(), hit(), miss(), miss()];
    let location = RuntimeLocation::resolve(DeploymentMode::Development, &host).unwrap();
    assert_eq!(
        location.runtime_root,
        path("/", &["work", "project", "frontend", "src-tauri", "python"])
    );
    assert_eq!(location.config_path, path("/", &["work", "project", "frontend", "src-tauri", ".env"]));
}

#[test]
fn development_fails_without_a_manifest() {
    let mut host = checkout();
    host.ancestor_probes = vec![miss(); 7];
    assert_eq!(
        RuntimeLocation::resolve(DeploymentMode::Development, &host),
        Err(ResolutionError::ProjectRootNotFound)
    );
}

#[test]
fn runtime_directory_without_manifest_is_no_root() {
    let mut host = checkout();
    host.ancestor_probes = vec![
        miss(),
        DirProbe { runtime_dir_present: true, manifest_present: false },
        DirProbe { runtime_dir_present: false, manifest_present: true },
        miss(),
        miss(),
        miss(),
        miss(),
    ];
    assert_eq!(
        RuntimeLocation::resolve(DeploymentMode::Development, &host),
        Err(ResolutionError::ProjectRootNotFound)
    );
}

#[test]
fn missing_probes_count_as_absent() {
    let mut host = checkout();
    host.ancestor_probes = vec![miss(), miss()];
    assert_eq!(
        RuntimeLocation::resolve(DeploymentMode::Development, &host),
        Err(ResolutionError::ProjectRootNotFound)
    );
    host.ancestor_probes = vec![];
    assert_eq!(
        RuntimeLocation::resolve(DeploymentMode::Development, &host),
        Err(ResolutionError::ProjectRootNotFound)
    );
}

#[test]
fn probes_beyond_the_anchor_are_ignored() {
    let host = HostLayout {
        executable: Some(path("/", &["bin", "app"])),
        ancestor_probes: vec![miss(), miss(), hit()],
        resource_dir: None,
        log_area: Some(path("/", &["logs"])),
    };
    assert_eq!(
        RuntimeLocation::resolve(DeploymentMode::Development, &host),
        Err(ResolutionError::ProjectRootNotFound)
    );
}

#[test]
fn the_anchor_itself_can_be_the_root() {
    let host = HostLayout {
        executable: Some(path("/", &["bin", "app"])),
        ancestor_probes: vec![miss(), hit()],
        resource_dir: None,
        log_area: Some(path("/", &["logs"])),
    };
    let location = RuntimeLocation::resolve(DeploymentMode::Development, &host).unwrap();
    assert_eq!(location.runtime_root, path("/", &["python"]));
    assert_eq!(location.config_path, path("/", &[".env"]));
}

#[test]
fn development_needs_the_executable_path() {
    let mut host = checkout();
    host.executable = None;
    assert_eq!(
        RuntimeLocation::resolve(DeploymentMode::Development, &host),
        Err(ResolutionError::ExecutableUnavailable)
    );
}

#[test]
fn development_needs_the_log_area() {
    let mut host = checkout();
    host.log_area = None;
    assert_eq!(
        RuntimeLocation::resolve(DeploymentMode::Development, &host),
        Err(ResolutionError::LogAreaUnavailable)
    );
}

#[test]
fn missing_root_is_reported_before_missing_log_area() {
    let mut host = checkout();
    host.log_area = None;
    host.ancestor_probes = vec![miss(); 7];
    assert_eq!(
        RuntimeLocation::resolve(DeploymentMode::Development, &host),
        Err(ResolutionError::ProjectRootNotFound)
    );
}

#[test]
fn packaged_uses_the_resource_directory() {
    let host = HostLayout {
        executable: None,
        ancestor_probes: vec![],
        resource_dir: Some(path("/", &["opt", "app", "resources"])),
        log_area: Some(path("/", &["var", "log", "app"])),
    };
    let location = RuntimeLocation::resolve(DeploymentMode::Packaged, &host).unwrap();
    assert_eq!(location.runtime_root, path("/", &["opt", "app", "resources", "backend"]));
    assert_eq!(location.config_path, path("/", &["opt", "app", "resources", "backend", ".env"]));
    assert_eq!(location.log_directory, path("/", &["var", "log", "app", "backend"]));
}

#[test]
fn packaged_fails_without_resource_directory() {
    let host = HostLayout {
        executable: Some(path("/", &["bin", "app"])),
        ancestor_probes: vec![hit()],
        resource_dir: None,
        log_area: Some(path("/", &["var", "log", "app"])),
    };
    assert_eq!(
        RuntimeLocation::resolve(DeploymentMode::Packaged, &host),
        Err(ResolutionError::ResourceDirUnavailable)
    );
}

#[test]
fn packaged_needs_the_log_area() {
    let host = HostLayout {
        executable: None,
        ancestor_probes: vec![],
        resource_dir: Some(path("/", &["opt", "app"])),
        log_area: None,
    };
    assert_eq!(
        RuntimeLocation::resolve(DeploymentMode::Packaged, &host),
        Err(ResolutionError::LogAreaUnavailable)
    );
}

#[test]
fn config_is_sibling_in_development_and_child_when_packaged() {
    let development = RuntimeLocation::resolve(DeploymentMode::Development, &checkout()).unwrap();
    assert_eq!(development.config_path.parent(), development.runtime_root.parent());
    let host = HostLayout {
        executable: None,
        ancestor_probes: vec![],
        resource_dir: Some(path("/", &["opt", "app"])),
        log_area: Some(path("/", &["logs"])),
    };
    let packaged = RuntimeLocation::resolve(DeploymentMode::Packaged, &host).unwrap();
    assert_eq!(packaged.config_path.parent(), Some(packaged.runtime_root.clone()));
}

#[test]
fn probe_targets_list_every_directory_above_the_executable() {
    let targets = probe_targets(&path("/", &["work", "project", "app"]));
    assert_eq!(targets.len(), 3);
    assert_eq!(targets[0].runtime_dir, path("/", &["work", "project", "python"]));
    assert_eq!(targets[0].manifest, path("/", &["work", "project", "python", "pyproject.toml"]));
    assert_eq!(targets[1].runtime_dir, path("/", &["work", "python"]));
    assert_eq!(targets[1].manifest, path("/", &["work", "python", "pyproject.toml"]));
    assert_eq!(targets[2].runtime_dir, path("/", &["python"]));
    assert_eq!(targets[2].manifest, path("/", &["python", "pyproject.toml"]));
    assert!(probe_targets(&path("/", &[])).is_empty());
}

#[test]
fn template_lies_beside_the_runtime_root() {
    let location = RuntimeLocation::resolve(DeploymentMode::Development, &checkout()).unwrap();
    assert_eq!(location.template_path(), Some(path("/", &["work", "project", ".env.example"])));
    let rootless = RuntimeLocation {
        runtime_root: path("/", &[]),
        config_path: path("/", &[".env"]),
        log_directory: path("/", &["logs"]),
    };
    assert_eq!(rootless.template_path(), None);
}

#[test]
fn storage_script_and_log_files_have_fixed_places() {
    let location = RuntimeLocation::resolve(DeploymentMode::Development, &checkout()).unwrap();
    assert_eq!(
        location.storage_script(),
        path("/", &["work", "project", "python", "valuecell", "server", "db", "init_db.py"])
    );
    assert_eq!(
        location.log_file("ResearchAgent"),
        path("/", &["home", "op", ".local", "share", "app", "logs", "backend", "ResearchAgent.log"])
    );
    assert_eq!(
        location.log_file("backend_server"),
        path("/", &["home", "op", ".local", "share", "app", "logs", "backend", "backend_server.log"])
    );
}

#[test]
fn location_clone_is_equal() {
    let location = RuntimeLocation::resolve(DeploymentMode::Development, &checkout()).unwrap();
    assert_eq!(location.clone(), location);
}
