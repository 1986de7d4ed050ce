//! Reports filed automatically for text that the profanity filter flags.
use vstd::prelude::*;
use crate::models::ids::{ProjectId, UserId, VersionId};

verus! {

/// Whether the standard and sexual word lists of the profanity filter flag the text.
pub uninterp spec fn censor_flags(text: Seq<char>) -> bool;

/// Whether the text holds a word of the filter's standard or sexual lists.
/// Trusted: calls `censor::Censor::check` on `Censor::Standard + Censor::Sex`;
/// the contract names the answer as a function of the text.
#[verifier::external_body]
fn censor_check_text(text: &str) -> (r: bool)
    ensures
        r == censor_flags(text@),
{
    let censor = censor::Censor::Standard + censor::Censor::Sex;
    censor.check(text)
}

/// The report to file for flagged text: it names what the text belongs to
/// and carries the report text; it has no reporter.
pub struct CensorReport {
    pub project_id: Option<ProjectId>,
    pub version_id: Option<VersionId>,
    pub user_id: Option<UserId>,
    pub body: String,
}

/// Checks text with the profanity filter: flagged text gives the
/// "inappropriate" report to file, other text none.
pub fn censor_check(
    text: &str,
    project: Option<ProjectId>,
    version: Option<VersionId>,
    user: Option<UserId>,
    report_text: String,
) -> (r: Option<CensorReport>)
    ensures
        r is Some <==> censor_flags(text@),
        r matches Some(c) ==> c.project_id == project && c.version_id == version && c.user_id == user && c.body == report_text,
{
    if censor_check_text(text) {
        Some(CensorReport { project_id: project, version_id: version, user_id: user, body: report_text })
    } else {
        None
    }
}

} // verus!
