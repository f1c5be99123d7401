//! Crash recovery of the configuration file: what the loader does when the
//! primary file cannot be read or parsed. The caller performs the reads,
//! copies and existence checks; this module decides.
use vstd::prelude::*;

verus! {

/// What reading the primary configuration file gave.
#[derive(Debug, Clone, Copy, PartialEq, Eq)]
pub enum PrimaryFile {
    /// Read and parsed.
    Parsed,
    /// Read, but the text does not parse; `empty` when there was no text.
    Unparseable { empty: bool },
    /// Could not be read (missing, or an I/O error).
    Unreadable,
}

/// Where a damaged configuration is restored from.
#[derive(Debug, Clone, Copy, PartialEq, Eq)]
pub enum RestoreSource {
    /// The last-good copy, `config.toml.bak`.
    Backup,
    /// The factory template next to the configuration file.
    TemplateBesideConfig,
    /// The factory template in the working directory.
    TemplateInWorkingDir,
}

/// The loader's next step.
#[derive(Debug, Clone, Copy, PartialEq, Eq)]
pub enum LoadStep {
    /// Use the primary file as read.
    UsePrimary,
    /// Recover: keep a copy of the damaged text aside when `quarantine`,
    /// then restore from `source`; with no source, loading fails.
    Recover { quarantine: bool, source: Option<RestoreSource> },
}

/// The first restore source that exists, in the order backup, template
/// beside the configuration, template in the working directory.
pub open spec fn restore_source(backup: bool, beside: bool, in_working_dir: bool) -> Option<RestoreSource> {
    if backup {
        Some(RestoreSource::Backup)
    } else if beside {
        Some(RestoreSource::TemplateBesideConfig)
    } else if in_working_dir {
        Some(RestoreSource::TemplateInWorkingDir)
    } else {
        None
    }
}

/// The step for a primary file: use it when it parsed; otherwise recover,
/// quarantining exactly a non-empty text that failed to parse, from the
/// first restore source that exists.
pub open spec fn load_step(
    primary: PrimaryFile,
    backup: bool,
    beside: bool,
    in_working_dir: bool,
) -> LoadStep {
    match primary {
        PrimaryFile::Parsed => LoadStep::UsePrimary,
        PrimaryFile::Unparseable { empty } => LoadStep::Recover {
            quarantine: !empty,
            source: restore_source(backup, beside, in_working_dir),
        },
        PrimaryFile::Unreadable => LoadStep::Recover {
            quarantine: false,
            source: restore_source(backup, beside, in_working_dir),
        },
    }
}

/// Recovery order: a file that parsed is used as it is; otherwise the loader
/// recovers, setting aside exactly a non-empty text that failed to parse. The
/// last-good backup is restored whenever it exists, however the primary
/// failed; a factory template is restored only when there is no backup, the
/// one beside the configuration before the one in the working directory; with
/// none of the three, nothing is restored.
pub proof fn lemma_recovery_order(primary: PrimaryFile, backup: bool, beside: bool, in_working_dir: bool)
    ensures
        (primary == PrimaryFile::Parsed) <==> load_step(primary, backup, beside, in_working_dir) == LoadStep::UsePrimary,
        primary != PrimaryFile::Parsed ==> (load_step(primary, backup, beside, in_working_dir) matches LoadStep::Recover { quarantine, source } && {
            &&& quarantine == (primary == PrimaryFile::Unparseable { empty: false })
            &&& (source == Some(RestoreSource::Backup) <==> backup)
            &&& (source == Some(RestoreSource::TemplateBesideConfig) <==> (!backup && beside))
            &&& (source == Some(RestoreSource::TemplateInWorkingDir) <==> (!backup && !beside && in_working_dir))
            &&& (source is None <==> (!backup && !beside && !in_working_dir))
        }),
        load_step(PrimaryFile::Unreadable, backup, beside, in_working_dir)->source
            == load_step(PrimaryFile::Unparseable { empty: false }, backup, beside, in_working_dir)->source,
        load_step(PrimaryFile::Unreadable, backup, beside, in_working_dir)->source
            == load_step(PrimaryFile::Unparseable { empty: true }, backup, beside, in_working_dir)->source,
{
}

/// Decides the loader's next step from what reading the primary file gave
/// and which restore sources exist.
pub fn plan_load(primary: PrimaryFile, backup_exists: bool, template_beside_exists: bool, template_in_working_dir_exists: bool) -> (step: LoadStep)
    ensures
        step == load_step(primary, backup_exists, template_beside_exists, template_in_working_dir_exists),
{
    let source = if backup_exists {
        Some(RestoreSource::Backup)
    } else if template_beside_exists {
        Some(RestoreSource::TemplateBesideConfig)
    } else if template_in_working_dir_exists {
        Some(RestoreSource::TemplateInWorkingDir)
    } else {
        None
    };
    match primary {
        PrimaryFile::Parsed => LoadStep::UsePrimary,
        PrimaryFile::Unparseable { empty } => LoadStep::Recover { quarantine: !empty, source },
        PrimaryFile::Unreadable => LoadStep::Recover { quarantine: false, source },
    }
}

} // verus!
