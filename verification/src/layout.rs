//! Where the runtime lives: the runtime root, the configuration file and the log
//! directory, resolved from what the host reports about the filesystem.

use crate::path::{lemma_parent_of_join, FsPath, PathView};
use vstd::prelude::*;

verus! {

/// How the application was started.
#[derive(Clone, Copy, PartialEq, Eq, Structural, Debug)]
pub enum DeploymentMode {
    /// Run from a development checkout.
    Development,
    /// Run from a packaged distribution.
    Packaged,
}

/// Why no runtime location could be resolved.
#[derive(Clone, Copy, PartialEq, Eq, Structural, Debug)]
pub enum ResolutionError {
    /// The host could not tell where the running executable is.
    ExecutableUnavailable,
    /// No directory above the executable holds the runtime and its manifest.
    ProjectRootNotFound,
    /// The host could not supply its resource directory.
    ResourceDirUnavailable,
    /// The host could not supply its log area.
    LogAreaUnavailable,
    /// The log directory could not be created.
    LogDirectoryUnavailable,
}

/// Whether one directory above the executable holds the runtime directory and,
/// inside it, the manifest.
#[derive(Clone, Copy, PartialEq, Eq, Structural, Debug)]
pub struct DirProbe {
    pub runtime_dir_present: bool,
    pub manifest_present: bool,
}

impl DirProbe {
    /// Whether the probed directory is a project root.
    pub open spec fn hit(self) -> bool {
        self.runtime_dir_present && self.manifest_present
    }
}

/// The two paths whose presence makes one directory a project root.
#[derive(Debug, PartialEq, Eq)]
pub struct ProbeTarget {
    pub runtime_dir: FsPath,
    pub manifest: FsPath,
}

/// What the host reports about itself and the filesystem. `ancestor_probes[i]`
/// describes the directory `i + 1` levels above the executable; a directory
/// without a probe counts as holding nothing.
#[derive(Debug)]
pub struct HostLayout {
    pub executable: Option<FsPath>,
    pub ancestor_probes: Vec<DirProbe>,
    pub resource_dir: Option<FsPath>,
    pub log_area: Option<FsPath>,
}

/// The mathematical value of a `HostLayout`.
pub struct HostView {
    pub executable: Option<PathView>,
    pub ancestor_probes: Seq<DirProbe>,
    pub resource_dir: Option<PathView>,
    pub log_area: Option<PathView>,
}

impl View for HostLayout {
    type V = HostView;

    open spec fn view(&self) -> HostView {
        HostView {
            executable: self.executable.deep_view(),
            ancestor_probes: self.ancestor_probes@,
            resource_dir: self.resource_dir.deep_view(),
            log_area: self.log_area.deep_view(),
        }
    }
}

/// The resolved paths of one supervisor, fixed for its lifetime.
#[derive(Debug, PartialEq, Eq)]
pub struct RuntimeLocation {
    /// The directory that holds the worker and server modules and their manifest.
    pub runtime_root: FsPath,
    /// The configuration file handed to every spawned process.
    pub config_path: FsPath,
    /// The directory of the per-process log files.
    pub log_directory: FsPath,
}

/// The mathematical value of a `RuntimeLocation`.
pub struct LocationView {
    pub runtime_root: PathView,
    pub config_path: PathView,
    pub log_directory: PathView,
}

impl View for RuntimeLocation {
    type V = LocationView;

    open spec fn view(&self) -> LocationView {
        LocationView {
            runtime_root: self.runtime_root@,
            config_path: self.config_path@,
            log_directory: self.log_directory@,
        }
    }
}

impl Clone for RuntimeLocation {
    fn clone(&self) -> (copy: RuntimeLocation)
        ensures
            copy@ == self@,
    {
        RuntimeLocation {
            runtime_root: self.runtime_root.clone(),
            config_path: self.config_path.clone(),
            log_directory: self.log_directory.clone(),
        }
    }
}

/// The runtime directory below a project root.
pub open spec fn runtime_dir_name() -> Seq<char> {
    "python"@
}

/// The manifest inside the runtime directory.
pub open spec fn manifest_name() -> Seq<char> {
    "pyproject.toml"@
}

/// The runtime directory below the resource directory of a packaged application.
pub open spec fn packaged_runtime_name() -> Seq<char> {
    "backend"@
}

/// The configuration file.
pub open spec fn config_name() -> Seq<char> {
    ".env"@
}

/// The template from which a missing configuration file is made.
pub open spec fn template_name() -> Seq<char> {
    ".env.example"@
}

/// The supervisor's directory below the host's log area.
pub open spec fn log_dir_name() -> Seq<char> {
    "backend"@
}

/// The first index from `from` on, below `limit`, whose probe is a hit; `limit`
/// if there is none.
pub open spec fn first_hit(probes: Seq<DirProbe>, from: nat, limit: nat) -> nat
    decreases limit - from,
{
    if from >= limit {
        limit
    } else if probes[from as int].hit() {
        from
    } else {
        first_hit(probes, from + 1, limit)
    }
}

/// How many directories above the executable are looked at.
pub open spec fn probe_limit(executable: PathView, probes: Seq<DirProbe>) -> nat {
    if probes.len() <= executable.depth() {
        probes.len()
    } else {
        executable.depth()
    }
}

/// The layout of a development checkout whose project root is `root`.
pub open spec fn development_layout(root: PathView, log_area: PathView) -> LocationView {
    LocationView {
        runtime_root: root.join(runtime_dir_name()),
        config_path: root.join(config_name()),
        log_directory: log_area.join(log_dir_name()),
    }
}

/// The layout of a packaged application whose resources are in `resources`.
pub open spec fn packaged_layout(resources: PathView, log_area: PathView) -> LocationView {
    LocationView {
        runtime_root: resources.join(packaged_runtime_name()),
        config_path: resources.join(packaged_runtime_name()).join(config_name()),
        log_directory: log_area.join(log_dir_name()),
    }
}

/// The location that a host report resolves to. In development the project root is
/// the nearest directory above the executable that holds the runtime directory and
/// its manifest; a packaged application finds the runtime below its resources.
pub open spec fn resolved(mode: DeploymentMode, host: HostView) -> Result<
    LocationView,
    ResolutionError,
> {
    match mode {
        DeploymentMode::Development => match host.executable {
            None => Err(ResolutionError::ExecutableUnavailable),
            Some(executable) => {
                let limit = probe_limit(executable, host.ancestor_probes);
                let found = first_hit(host.ancestor_probes, 0, limit);
                if found >= limit {
                    Err(ResolutionError::ProjectRootNotFound)
                } else {
                    match host.log_area {
                        None => Err(ResolutionError::LogAreaUnavailable),
                        Some(log_area) => Ok(
                            development_layout(executable.ancestor(found + 1), log_area),
                        ),
                    }
                }
            },
        },
        DeploymentMode::Packaged => match host.resource_dir {
            None => Err(ResolutionError::ResourceDirUnavailable),
            Some(resources) => match host.log_area {
                None => Err(ResolutionError::LogAreaUnavailable),
                Some(log_area) => Ok(packaged_layout(resources, log_area)),
            },
        },
    }
}

/// The paths that the host has to test, one pair for each directory above the
/// executable, nearest first.
pub fn probe_targets(executable: &FsPath) -> (targets: Vec<ProbeTarget>)
    ensures
        targets.len() == executable@.depth(),
        forall|i: int|
            0 <= i < targets.len() ==> {
                let dir = executable@.ancestor((i + 1) as nat).join(runtime_dir_name());
                &&& (#[trigger] targets[i]).runtime_dir@ == dir
                &&& targets[i].manifest@ == dir.join(manifest_name())
            },
{
    let depth = executable.depth();
    let mut targets: Vec<ProbeTarget> = Vec::new();
    let mut i: usize = 0;
    while i < depth
        invariant
            depth == executable@.depth(),
            i <= depth,
            targets.len() == i,
            forall|k: int|
                0 <= k < i ==> {
                    let dir = executable@.ancestor((k + 1) as nat).join(runtime_dir_name());
                    &&& (#[trigger] targets[k]).runtime_dir@ == dir
                    &&& targets[k].manifest@ == dir.join(manifest_name())
                },
        decreases depth - i,
    {
        let runtime_dir = executable.ancestor(i + 1).join("python");
        let manifest = runtime_dir.join("pyproject.toml");
        targets.push(ProbeTarget { runtime_dir, manifest });
        i += 1;
    }
    targets
}

/// The nearest probed directory that is a project root.
fn find_hit(probes: &Vec<DirProbe>, limit: usize) -> (found: usize)
    requires
        limit <= probes.len(),
    ensures
        found == first_hit(probes@, 0, limit as nat),
        found <= limit,
{
    let mut i: usize = 0;
    while i < limit
        invariant
            i <= limit <= probes.len(),
            first_hit(probes@, 0, limit as nat) == first_hit(probes@, i as nat, limit as nat),
        decreases limit - i,
    {
        if probes[i].runtime_dir_present && probes[i].manifest_present {
            return i;
        }
        i += 1;
    }
    limit
}

impl RuntimeLocation {
    /// Resolves the runtime location from what the host reports. The result
    /// depends on the report alone.
    pub fn resolve(mode: DeploymentMode, host: &HostLayout) -> (location: Result<
        RuntimeLocation,
        ResolutionError,
    >)
        ensures
            match location {
                Ok(found) => resolved(mode, host@) == Ok::<LocationView, ResolutionError>(found@),
                Err(error) => resolved(mode, host@) == Err::<LocationView, ResolutionError>(error),
            },
    {
        match mode {
            DeploymentMode::Development => {
                let executable = match &host.executable {
                    None => return Err(ResolutionError::ExecutableUnavailable),
                    Some(executable) => executable,
                };
                let limit = if host.ancestor_probes.len() <= executable.depth() {
                    host.ancestor_probes.len()
                } else {
                    executable.depth()
                };
                let found = find_hit(&host.ancestor_probes, limit);
                if found >= limit {
                    return Err(ResolutionError::ProjectRootNotFound);
                }
                let log_area = match &host.log_area {
                    None => return Err(ResolutionError::LogAreaUnavailable),
                    Some(log_area) => log_area,
                };
                let root = executable.ancestor(found + 1);
                Ok(
                    RuntimeLocation {
                        runtime_root: root.join("python"),
                        config_path: root.join(".env"),
                        log_directory: log_area.join("backend"),
                    },
                )
            },
            DeploymentMode::Packaged => {
                let resources = match &host.resource_dir {
                    None => return Err(ResolutionError::ResourceDirUnavailable),
                    Some(resources) => resources,
                };
                let log_area = match &host.log_area {
                    None => return Err(ResolutionError::LogAreaUnavailable),
                    Some(log_area) => log_area,
                };
                let runtime_root = resources.join("backend");
                let config_path = runtime_root.join(".env");
                Ok(
                    RuntimeLocation {
                        runtime_root,
                        config_path,
                        log_directory: log_area.join("backend"),
                    },
                )
            },
        }
    }
}

impl LocationView {
    /// Where the configuration template is looked for: beside the runtime root.
    pub open spec fn template_path(self) -> Option<PathView> {
        match self.runtime_root.parent() {
            None => None,
            Some(above) => Some(above.join(template_name())),
        }
    }

    /// The entry point of the storage initialisation, below the runtime root.
    pub open spec fn storage_script(self) -> PathView {
        self.runtime_root.join("valuecell"@).join("server"@).join("db"@).join("init_db.py"@)
    }

    /// The log file of the process with this identity.
    pub open spec fn log_file(self, identity: Seq<char>) -> PathView {
        self.log_directory.join(identity + ".log"@)
    }
}

impl RuntimeLocation {
    /// Where the configuration template is looked for: beside the runtime root.
    pub fn template_path(&self) -> (template: Option<FsPath>)
        ensures
            template.deep_view() == self@.template_path(),
    {
        match self.runtime_root.parent() {
            None => None,
            Some(above) => Some(above.join(".env.example")),
        }
    }

    /// The entry point of the storage initialisation, below the runtime root.
    pub fn storage_script(&self) -> (script: FsPath)
        ensures
            script@ == self@.storage_script(),
    {
        self.runtime_root.join("valuecell").join("server").join("db").join("init_db.py")
    }

    /// The log file of the process with this identity.
    pub fn log_file(&self, identity: &str) -> (file: FsPath)
        ensures
            file@ == self@.log_file(identity@),
    {
        let mut name = identity.to_owned();
        name.append(".log");
        self.log_directory.join(name.as_str())
    }
}

/// What `first_hit` finds: the index it returns is a hit unless it is the limit,
/// and nothing before it is.
pub proof fn lemma_first_hit(probes: Seq<DirProbe>, from: nat, limit: nat)
    requires
        from <= limit <= probes.len(),
    ensures
        from <= first_hit(probes, from, limit) <= limit,
        first_hit(probes, from, limit) < limit ==> probes[first_hit(
            probes,
            from,
            limit,
        ) as int].hit(),
        forall|i: int| from <= i < first_hit(probes, from, limit) ==> !(#[trigger] probes[i]).hit(),
    decreases limit - from,
{
    if from < limit && !probes[from as int].hit() {
        lemma_first_hit(probes, from + 1, limit);
    }
}

/// Probes that agree below the limit have the same first hit.
pub proof fn lemma_first_hit_agrees(
    first: Seq<DirProbe>,
    second: Seq<DirProbe>,
    from: nat,
    limit: nat,
)
    requires
        forall|i: int| from <= i < limit ==> first[i] == second[i],
    ensures
        first_hit(first, from, limit) == first_hit(second, from, limit),
    decreases limit - from,
{
    if from < limit && !first[from as int].hit() {
        lemma_first_hit_agrees(first, second, from + 1, limit);
    }
}

/// Whether two host reports describe the same fixture as far as `mode` looks at
/// it: the log area always; in development the executable and the probes of the
/// directories above it; in a packaged application the resource directory.
pub open spec fn same_fixture(mode: DeploymentMode, first: HostView, second: HostView) -> bool {
    &&& first.log_area == second.log_area
    &&& match mode {
        DeploymentMode::Development => {
            &&& first.executable == second.executable
            &&& first.executable matches Some(executable) ==> {
                &&& probe_limit(executable, first.ancestor_probes) == probe_limit(
                    executable,
                    second.ancestor_probes,
                )
                &&& forall|i: int|
                    0 <= i < probe_limit(executable, first.ancestor_probes)
                        ==> first.ancestor_probes[i] == second.ancestor_probes[i]
            }
        },
        DeploymentMode::Packaged => first.resource_dir == second.resource_dir,
    }
}

/// Resolution is deterministic: two reports of the same fixture resolve alike, to
/// the same location or to the same error.
pub proof fn lemma_same_fixture_resolves_alike(
    mode: DeploymentMode,
    first: HostView,
    second: HostView,
)
    requires
        same_fixture(mode, first, second),
    ensures
        resolved(mode, first) == resolved(mode, second),
{
    if mode == DeploymentMode::Development && first.executable is Some {
        let limit = probe_limit(first.executable->0, first.ancestor_probes);
        lemma_first_hit_agrees(first.ancestor_probes, second.ancestor_probes, 0, limit);
    }
}

/// In development, resolution fails with `ProjectRootNotFound` whenever no probed
/// directory above the executable holds the runtime directory and its manifest.
pub proof fn lemma_no_manifest_no_root(host: HostView)
    requires
        host.executable is Some,
        forall|i: int|
            0 <= i < host.ancestor_probes.len() ==> !(#[trigger] host.ancestor_probes[i]).hit(),
    ensures
        resolved(DeploymentMode::Development, host) == Err::<LocationView, ResolutionError>(
            ResolutionError::ProjectRootNotFound,
        ),
{
    let limit = probe_limit(host.executable->0, host.ancestor_probes);
    lemma_first_hit(host.ancestor_probes, 0, limit);
}

/// In development, the project root that resolution picks is the nearest probed
/// directory that is a hit: no directory closer to the executable is one.
pub proof fn lemma_nearest_root_wins(host: HostView, level: int)
    requires
        host.executable is Some,
        host.log_area is Some,
        0 <= level < probe_limit(host.executable->0, host.ancestor_probes),
        host.ancestor_probes[level].hit(),
        forall|i: int| 0 <= i < level ==> !(#[trigger] host.ancestor_probes[i]).hit(),
    ensures
        resolved(DeploymentMode::Development, host) == Ok::<LocationView, ResolutionError>(
            development_layout(
                (host.executable->0).ancestor((level + 1) as nat),
                host.log_area->0,
            ),
        ),
{
    let limit = probe_limit(host.executable->0, host.ancestor_probes);
    lemma_first_hit(host.ancestor_probes, 0, limit);
}

/// The configuration file lies beside the runtime root in development and inside
/// it in a packaged application.
pub proof fn lemma_config_placement(mode: DeploymentMode, host: HostView)
    ensures
        match resolved(mode, host) {
            Ok(location) => match mode {
                DeploymentMode::Development => location.config_path.parent()
                    == location.runtime_root.parent(),
                DeploymentMode::Packaged => location.config_path.parent() == Some(
                    location.runtime_root,
                ),
            },
            Err(_) => true,
        },
{
    match resolved(mode, host) {
        Ok(location) => {
            match mode {
                DeploymentMode::Development => {
                    let limit = probe_limit(host.executable->0, host.ancestor_probes);
                    let found = first_hit(host.ancestor_probes, 0, limit);
                    let root = (host.executable->0).ancestor(found + 1);
                    lemma_parent_of_join(root, runtime_dir_name());
                    lemma_parent_of_join(root, config_name());
                },
                DeploymentMode::Packaged => {
                    let resources = host.resource_dir->0;
                    lemma_parent_of_join(resources.join(packaged_runtime_name()), config_name());
                },
            }
        },
        Err(_) => {},
    }
}

} // verus!
