use vstd::prelude::*;

use crate::severity::{category_named, ChangeTypes};

verus! {

/// Relies on `serde_json::Value` only as a type: a JSON value, carried
/// through unread.
#[verifier::external_type_specification]
#[verifier::external_body]
pub struct ExJsonValue(serde_json::Value);

/// The change summary of an analyzer report.
pub struct SemverResultChanges {
    /// Name of the most severe category of change found; `None` where the
    /// report leaves it out.
    pub max_category: Option<String>,
    /// Changes to item paths; not read here.
    pub path_changes: serde_json::Value,
    /// The changes item by item; not read here.
    pub changes: serde_json::Value,
}

/// The analyzer's report on two versions of a package.
pub struct SemverResult {
    pub old_version: String,
    pub new_version: String,
    pub changes: SemverResultChanges,
}

/// Why a report could not be read as a verdict.
#[derive(Clone, Copy, Debug, PartialEq, Eq, Structural)]
pub enum ReportError {
    /// The report names no most severe category.
    MissingCategory,
    /// The most severe category is not one of the four known ones.
    UnknownCategory,
}

/// The verdict of a report that names `max_category` as its most severe
/// category.
pub open spec fn verdict(max_category: Option<String>) -> Result<ChangeTypes, ReportError> {
    match max_category {
        None => Err(ReportError::MissingCategory),
        Some(name) => match category_named(name@) {
            Some(c) => Ok(c),
            None => Err(ReportError::UnknownCategory),
        },
    }
}

/// The verdict of a report: its most severe category. A report without one,
/// or with a name outside the four categories, is an error; there is no
/// fallback category.
pub fn classify(report: &SemverResult) -> (r: Result<ChangeTypes, ReportError>)
    ensures
        r == verdict(report.changes.max_category),
{
    match &report.changes.max_category {
        None => Err(ReportError::MissingCategory),
        Some(name) => match ChangeTypes::from_name(name.as_str()) {
            Some(c) => Ok(c),
            None => Err(ReportError::UnknownCategory),
        },
    }
}

} // verus!
