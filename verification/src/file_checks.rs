//! The two marker-file checks: force-success and maintenance ("mtc").
//!
//! Both decide from the result of a single filesystem stat, which the
//! caller performs and reports as a [`FileStat`]. The decision itself — what
//! a present, missing or unreadable marker means for the verdict — is the
//! logic verified here.

use vstd::prelude::*;

use crate::check_result::{CheckResultView, StatusCheckResult};
use crate::options::Options;

verus! {

/// What a filesystem stat of a marker file observed.
pub enum FileStat {
    /// The file exists.
    Present,
    /// The file does not exist.
    Missing,
    /// The stat failed for another reason, described by the text.
    StatError(String),
}

/// Checks for a marker file whose presence forces the verdict to success,
/// overriding every other check of the cycle.
pub struct ForceSuccessFileCheck {
    /// Path of the marker file.
    pub file_path: String,
}

/// The outcome of the force-success check: always successful, and exclusive
/// exactly when the marker file is present.
pub open spec fn spec_force_success_outcome(stat_present: bool) -> CheckResultView {
    CheckResultView { failure_reason: None, ignore_other_results: stat_present }
}

impl ForceSuccessFileCheck {
    /// Builds the check. It is always enabled; without a configured path it
    /// watches `easycheck.success`.
    pub fn from_options(options: &Options) -> (r: Result<Option<Self>, crate::options::ConfigError>)
        ensures
            r matches Ok(Some(c)) && c.file_path@ == (match options.force_success_file_path {
                Some(ref p) => p@,
                None => "easycheck.success"@,
            }),
    {
        let file_path = match &options.force_success_file_path {
            Some(p) => p.clone(),
            None => "easycheck.success".to_owned(),
        };
        Ok(Some(Self { file_path }))
    }

    /// The stable display name of this check.
    pub fn check_name(&self) -> (s: String)
        ensures
            s@ == "force success file"@,
    {
        "force success file".to_owned()
    }

    /// Decides the check outcome from the observed stat: a present marker is
    /// an exclusive success, anything else a plain success.
    pub fn evaluate(&self, stat: &FileStat) -> (r: StatusCheckResult)
        ensures
            r@ == spec_force_success_outcome(*stat is Present),
    {
        match stat {
            FileStat::Present => StatusCheckResult::new_success().ignore_other_results(),
            _ => StatusCheckResult::new_success(),
        }
    }
}

/// Checks for a maintenance marker file whose presence reports the instance
/// as unavailable.
pub struct MtcFileCheck {
    /// Path of the marker file.
    pub file_path: String,
}

/// The outcome of the maintenance check for each observed stat.
pub open spec fn spec_mtc_outcome(stat: FileStat) -> CheckResultView {
    match stat {
        FileStat::Present => CheckResultView {
            failure_reason: Some("mtc file exists"@),
            ignore_other_results: false,
        },
        FileStat::Missing => CheckResultView { failure_reason: None, ignore_other_results: false },
        FileStat::StatError(e) => CheckResultView {
            failure_reason: Some("unable to query mtc existence: "@ + e@),
            ignore_other_results: false,
        },
    }
}

impl MtcFileCheck {
    /// Builds the check. It is always enabled; without a configured path it
    /// watches `easycheck.disabled`.
    pub fn from_options(options: &Options) -> (r: Result<Option<Self>, crate::options::ConfigError>)
        ensures
            r matches Ok(Some(c)) && c.file_path@ == (match options.mtc_check_file_path {
                Some(ref p) => p@,
                None => "easycheck.disabled"@,
            }),
    {
        let file_path = match &options.mtc_check_file_path {
            Some(p) => p.clone(),
            None => "easycheck.disabled".to_owned(),
        };
        Ok(Some(Self { file_path }))
    }

    /// The stable display name of this check.
    pub fn check_name(&self) -> (s: String)
        ensures
            s@ == "mtc file"@,
    {
        "mtc file".to_owned()
    }

    /// Decides the check outcome from the observed stat: a present marker
    /// fails the check, a missing one passes it, and a failing stat is
    /// reported with its error text.
    pub fn evaluate(&self, stat: &FileStat) -> (r: StatusCheckResult)
        ensures
            r@ == spec_mtc_outcome(*stat),
    {
        match stat {
            FileStat::Present => StatusCheckResult::new_failure("mtc file exists".to_owned()),
            FileStat::Missing => StatusCheckResult::new_success(),
            FileStat::StatError(e) => {
                let reason = "unable to query mtc existence: ".to_owned().concat(e.as_str());
                StatusCheckResult::new_failure(reason)
            },
        }
    }
}

} // verus!
