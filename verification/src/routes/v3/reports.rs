//! Reports (v3): what a new report names, who sees a report, and what an
//! edit of a report does.
use vstd::prelude::*;
use crate::models::ids::{
    parse_base62, spec_parse_base62, spec_to_base62, to_base62, ImageId, ProjectId, UserId,
    VersionId,
};
use crate::models::reports::{spec_item_type_str, ItemType};
use crate::routes::ApiError;
use crate::util::access::{accessible_positions, may_access, spec_accessible_positions};

verus! {

broadcast use vstd::string::group_string_axioms;

/// The body that files a report.
pub struct CreateReport {
    pub report_type: String,
    pub item_id: String,
    pub item_type: ItemType,
    pub body: String,
    /// Images uploaded for the report, to be attached to it.
    pub uploaded_images: Vec<ImageId>,
}

/// The item a report is filed against.
#[derive(Debug, Clone, Copy, PartialEq, Eq, Structural)]
pub enum ReportTarget {
    Project(ProjectId),
    Version(VersionId),
    User(UserId),
}

/// The item named by a kind and a base62 id, when the kind is known and
/// the id decodes.
pub open spec fn spec_report_target(item_type: ItemType, id: u64) -> ReportTarget {
    match item_type {
        ItemType::Project => ReportTarget::Project(ProjectId(id)),
        ItemType::Version => ReportTarget::Version(VersionId(id)),
        _ => ReportTarget::User(UserId(id)),
    }
}

/// The refusal of a report type the site does not know.
pub fn invalid_report_type(report_type: &str) -> (r: ApiError)
    ensures
        r matches ApiError::InvalidInput(m) && m@ == "Invalid report type: "@ + report_type@,
{
    let mut m = "Invalid report type: ".to_owned();
    m.append(report_type);
    ApiError::InvalidInput(m)
}

/// The refusal of a report against an item that does not exist, by its kind.
pub open spec fn spec_missing_item_text(target: ReportTarget, item_id: Seq<char>) -> Seq<char> {
    match target {
        ReportTarget::Project(_) => "Project could not be found: "@ + item_id,
        ReportTarget::Version(_) => "Version could not be found: "@ + item_id,
        ReportTarget::User(_) => "User could not be found: "@ + item_id,
    }
}

/// Whether a report may be filed against its item: only one that exists;
/// the refusal quotes the id as given.
pub fn check_report_item(target: ReportTarget, item_id: &str, exists: bool) -> (r: Result<(), ApiError>)
    ensures
        r is Ok <==> exists,
        !exists ==> (r matches Err(ApiError::InvalidInput(m)) && m@ == spec_missing_item_text(target, item_id@)),
{
    if exists {
        return Ok(());
    }
    let mut m = match target {
        ReportTarget::Project(_) => "Project could not be found: ".to_owned(),
        ReportTarget::Version(_) => "Version could not be found: ".to_owned(),
        ReportTarget::User(_) => "User could not be found: ".to_owned(),
    };
    m.append(item_id);
    Err(ApiError::InvalidInput(m))
}

/// The refusal of an image of a new report that does not exist.
pub fn report_image_missing(image_id: ImageId) -> (r: ApiError)
    ensures
        r matches ApiError::InvalidInput(m) && m@ == "Image "@ + spec_to_base62(image_id.0 as nat) + " could not be found"@,
{
    let mut m = "Image ".to_owned();
    m.append(to_base62(image_id.0).as_str());
    m.append(" could not be found");
    ApiError::InvalidInput(m)
}

/// The item a new report is filed against: the id decoded as base62 for a
/// project, a version or a user; an unknown kind is refused.
pub fn report_target(item_type: ItemType, item_id: &str) -> (r: Result<ReportTarget, ApiError>)
    ensures
        item_type == ItemType::Unknown ==> (r matches Err(ApiError::InvalidInput(m))
            && m@ == "Invalid report item type: "@ + spec_item_type_str(item_type)),
        item_type != ItemType::Unknown ==> match spec_parse_base62(item_id@) {
            Err(e) => r == Err::<ReportTarget, ApiError>(ApiError::Decoding(e)),
            Ok(n) => r == Ok::<ReportTarget, ApiError>(spec_report_target(item_type, n)),
        },
{
    if item_type == ItemType::Unknown {
        let mut m = "Invalid report item type: ".to_owned();
        m.append(item_type.as_str());
        return Err(ApiError::InvalidInput(m));
    }
    match parse_base62(item_id) {
        Err(e) => Err(ApiError::Decoding(e)),
        Ok(n) => Ok(match item_type {
            ItemType::Project => ReportTarget::Project(ProjectId(n)),
            ItemType::Version => ReportTarget::Version(VersionId(n)),
            _ => ReportTarget::User(UserId(n)),
        }),
    }
}

/// An uploaded image may be attached to a new report only while it sits in
/// the report context and belongs to no report yet.
pub fn check_report_image(image_id: ImageId, in_report_context: bool, attached: bool) -> (r: Result<(), ApiError>)
    ensures
        r is Ok <==> (in_report_context && !attached),
        r is Err ==> (r matches Err(ApiError::InvalidInput(m)) && m@ == "Image "@
            + spec_to_base62(image_id.0 as nat) + " is not unused and in the 'report' context"@),
{
    if !in_report_context || attached {
        let mut m = "Image ".to_owned();
        m.append(to_base62(image_id.0).as_str());
        m.append(" is not unused and in the 'report' context");
        return Err(ApiError::InvalidInput(m));
    }
    Ok(())
}

/// How many reports a listing shows and whether it shows every open report.
pub struct ReportsRequestOptions {
    pub count: i16,
    pub all: bool,
}

/// The number of reports listed when the request names none.
pub fn default_count() -> (r: i16)
    ensures
        r == 100,
{
    100
}

/// Whether a listing shows every open report when the request does not say.
pub fn default_all() -> (r: bool)
    ensures
        r,
{
    true
}

/// Whether a listing shows every open report (a moderator who asked for all)
/// or only the user's own open reports.
pub fn lists_all_open_reports(user_is_mod: bool, options: &ReportsRequestOptions) -> (r: bool)
    ensures
        r == (user_is_mod && options.all),
{
    user_is_mod && options.all
}

/// A list of report ids, as a JSON array in a string.
pub struct ReportIds {
    pub ids: String,
}

/// A report is shown to moderators and to the user who filed it.
pub fn report_visible(user_is_mod: bool, reporter: UserId, user: UserId) -> (r: bool)
    ensures
        r == (user_is_mod || reporter == user),
{
    may_access(reporter, user, user_is_mod)
}

/// The reports, among those fetched (given by who filed them), that the user
/// is shown: all of them for a moderator, else the user's own, in order.
pub fn visible_reports(reporters: &[UserId], user: UserId, user_is_mod: bool) -> (r: Vec<usize>)
    ensures
        r@ == spec_accessible_positions(reporters@, user, user_is_mod),
{
    accessible_positions(reporters, user, user_is_mod)
}

/// An edit of a report.
pub struct EditReport {
    pub body: Option<String>,
    pub closed: Option<bool>,
}

/// The message an edit posts in the report's thread.
#[derive(Debug, Clone, Copy, PartialEq, Eq, Structural)]
pub enum ThreadEvent {
    ThreadReopen,
    ThreadClosure,
}

/// What an edit that closes or reopens a report does.
#[derive(Debug, Clone, Copy, PartialEq, Eq, Structural)]
pub struct ReportClosing {
    /// The message posted in the report's thread.
    pub message: ThreadEvent,
    /// Whether the report is closed afterwards.
    pub closed: bool,
    /// Whether the thread is shown in the moderators' inbox afterwards.
    pub show_in_mod_inbox: bool,
}

/// What an edit does to a report: hidden (not found) from users who may not
/// see it; a change of its closed state only by a moderator, with a reopen
/// message only when a closed report is opened again, and the thread left in
/// the moderators' inbox only while the report was and stays open.
pub fn plan_report_edit(user_is_mod: bool, reporter: UserId, user: UserId, report_closed: bool, edit: &EditReport) -> (r: Result<Option<ReportClosing>, ApiError>)
    ensures
        !(user_is_mod || reporter == user) ==> r == Err::<Option<ReportClosing>, ApiError>(ApiError::NotFound),
        (user_is_mod || reporter == user) && edit.closed is Some && !user_is_mod ==>
            (r matches Err(ApiError::InvalidInput(m)) && m@ == "You cannot reopen a report!"@),
        (user_is_mod || reporter == user) && edit.closed is None ==> r == Ok::<Option<ReportClosing>, ApiError>(None),
        user_is_mod ==> match edit.closed {
            Some(c) => r == Ok::<Option<ReportClosing>, ApiError>(Some(ReportClosing {
                message: if !c && report_closed { ThreadEvent::ThreadReopen } else { ThreadEvent::ThreadClosure },
                closed: c,
                show_in_mod_inbox: !(c || report_closed),
            })),
            None => r == Ok::<Option<ReportClosing>, ApiError>(None),
        },
{
    if !report_visible(user_is_mod, reporter, user) {
        return Err(ApiError::NotFound);
    }
    match edit.closed {
        None => Ok(None),
        Some(c) => {
            if !user_is_mod {
                return Err(ApiError::InvalidInput("You cannot reopen a report!".to_owned()));
            }
            let message = if !c && report_closed {
                ThreadEvent::ThreadReopen
            } else {
                ThreadEvent::ThreadClosure
            };
            Ok(Some(ReportClosing { message, closed: c, show_in_mod_inbox: !(c || report_closed) }))
        },
    }
}

} // verus!
