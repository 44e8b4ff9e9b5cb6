//! Making sure that the configuration file exists before anything is launched.

use crate::layout::{LocationView, RuntimeLocation};
use crate::path::{FsPath, PathView};
use vstd::prelude::*;

verus! {

/// What the host has to do about the configuration file.
#[derive(Debug, PartialEq, Eq)]
pub enum ConfigAction {
    /// The file exists and is left as it is.
    Keep,
    /// The file is missing: copy the template verbatim, then tell the operator to
    /// edit the copy and restart.
    CopyTemplate { from: FsPath, to: FsPath },
    /// Neither the file nor the template exists: tell the operator loudly and go
    /// on without a file.
    ReportMissing { template: FsPath, config: FsPath },
}

/// The mathematical value of a `ConfigAction`.
pub enum ConfigActionView {
    Keep,
    CopyTemplate { from: PathView, to: PathView },
    ReportMissing { template: PathView, config: PathView },
}

impl View for ConfigAction {
    type V = ConfigActionView;

    open spec fn view(&self) -> ConfigActionView {
        match self {
            ConfigAction::Keep => ConfigActionView::Keep,
            ConfigAction::CopyTemplate { from, to } => ConfigActionView::CopyTemplate {
                from: from@,
                to: to@,
            },
            ConfigAction::ReportMissing { template, config } => ConfigActionView::ReportMissing {
                template: template@,
                config: config@,
            },
        }
    }
}

/// Why the configuration file could not be looked after.
#[derive(Clone, Copy, PartialEq, Eq, Structural, Debug)]
pub enum ConfigError {
    /// The runtime root has no directory above it in which a template could lie.
    TemplateLocationUnavailable,
}

/// What is to be done about the configuration file, given whether it and the
/// template exist. An existing file is never touched.
pub open spec fn bootstrap_plan(
    location: LocationView,
    config_present: bool,
    template_present: bool,
) -> Result<ConfigActionView, ConfigError> {
    if config_present {
        Ok(ConfigActionView::Keep)
    } else {
        match location.template_path() {
            None => Err(ConfigError::TemplateLocationUnavailable),
            Some(template) => if template_present {
                Ok(ConfigActionView::CopyTemplate { from: template, to: location.config_path })
            } else {
                Ok(ConfigActionView::ReportMissing { template, config: location.config_path })
            },
        }
    }
}

/// Decides what is to be done about the configuration file.
pub fn plan_bootstrap(
    location: &RuntimeLocation,
    config_present: bool,
    template_present: bool,
) -> (plan: Result<ConfigAction, ConfigError>)
    ensures
        match plan {
            Ok(action) => bootstrap_plan(location@, config_present, template_present) == Ok::<
                ConfigActionView,
                ConfigError,
            >(action@),
            Err(error) => bootstrap_plan(location@, config_present, template_present) == Err::<
                ConfigActionView,
                ConfigError,
            >(error),
        },
{
    if config_present {
        return Ok(ConfigAction::Keep);
    }
    match location.template_path() {
        None => Err(ConfigError::TemplateLocationUnavailable),
        Some(template) => if template_present {
            Ok(ConfigAction::CopyTemplate { from: template, to: location.config_path.clone() })
        } else {
            Ok(ConfigAction::ReportMissing { template, config: location.config_path.clone() })
        },
    }
}

/// The contents of the two files that the bootstrap is about; `None` for a file
/// that does not exist.
pub struct ConfigFiles {
    pub config: Option<Seq<u8>>,
    pub template: Option<Seq<u8>>,
}

/// The files after the host has carried an action out.
pub open spec fn carried_out(files: ConfigFiles, action: ConfigActionView) -> ConfigFiles {
    match action {
        ConfigActionView::Keep => files,
        ConfigActionView::CopyTemplate { .. } => ConfigFiles {
            config: files.template,
            template: files.template,
        },
        ConfigActionView::ReportMissing { .. } => files,
    }
}

/// The files after one whole bootstrap: the plan is made from what exists and
/// then carried out.
pub open spec fn bootstrapped(location: LocationView, files: ConfigFiles) -> ConfigFiles {
    match bootstrap_plan(location, files.config is Some, files.template is Some) {
        Ok(action) => carried_out(files, action),
        Err(_) => files,
    }
}

/// A configuration file that exists is kept: the plan writes nothing, and the
/// files are afterwards what they were.
pub proof fn lemma_existing_config_is_kept(location: LocationView, files: ConfigFiles)
    requires
        files.config is Some,
    ensures
        bootstrap_plan(location, true, files.template is Some) == Ok::<
            ConfigActionView,
            ConfigError,
        >(ConfigActionView::Keep),
        bootstrapped(location, files) == files,
{
}

/// Where the file is missing and the template exists, the file afterwards holds
/// the template's bytes, and the template is unchanged.
pub proof fn lemma_template_is_copied_verbatim(location: LocationView, files: ConfigFiles)
    requires
        files.config is None,
        files.template is Some,
        location.template_path() is Some,
    ensures
        bootstrapped(location, files).config == files.template,
        bootstrapped(location, files).template == files.template,
{
}

/// A second bootstrap changes nothing that the first one left.
pub proof fn lemma_bootstrap_idempotent(location: LocationView, files: ConfigFiles)
    ensures
        bootstrapped(location, bootstrapped(location, files)) == bootstrapped(location, files),
{
}

} // verus!
