//! The decisions of the v3 project edit: which edits the caller may make and
//! what a status change brings with it.
use vstd::prelude::*;
use crate::models::projects::{MonetizationStatus, ProjectStatus};
use crate::models::v2::projects::DonationLink;
use crate::models::ids::{parse_base62, spec_parse_base62};
use crate::routes::{ApiError, EditStart};
use crate::routes::v3::tags::DEFAULT_LICENSE_ID;
use crate::util::text::{lowercase, str_eq, to_lowercase};

verus! {

/// A list of project ids, as a JSON array in a string.
pub struct ProjectIds {
    pub ids: String,
}

/// An edit of a project. A field that is absent is left as it is; for a
/// field that can be empty, `Some(None)` empties it.
pub struct EditProject {
    pub title: Option<String>,
    pub description: Option<String>,
    pub body: Option<String>,
    pub categories: Option<Vec<String>>,
    pub additional_categories: Option<Vec<String>>,
    pub issues_url: Option<Option<String>>,
    pub source_url: Option<Option<String>>,
    pub wiki_url: Option<Option<String>>,
    pub license_url: Option<Option<String>>,
    pub discord_url: Option<Option<String>>,
    pub donation_urls: Option<Vec<DonationLink>>,
    pub license_id: Option<String>,
    pub slug: Option<String>,
    pub status: Option<ProjectStatus>,
    pub requested_status: Option<Option<ProjectStatus>>,
    pub moderation_message: Option<Option<String>>,
    pub moderation_message_body: Option<Option<String>>,
    pub monetization_status: Option<MonetizationStatus>,
}

/// A part of a project that an edit can change.
#[derive(Debug, Clone, Copy, PartialEq, Eq, Structural)]
pub enum ProjectEditField {
    Title,
    Description,
    Status,
    RequestedStatus,
    Categories,
    AdditionalCategories,
    IssuesUrl,
    SourceUrl,
    WikiUrl,
    LicenseUrl,
    DiscordUrl,
    Slug,
    License,
    DonationLinks,
    Body,
    MonetizationStatus,
}

/// The words that name a field in the refusal message.
pub open spec fn spec_field_words(field: ProjectEditField) -> Seq<char> {
    match field {
        ProjectEditField::Title => "title"@,
        ProjectEditField::Description => "description"@,
        ProjectEditField::Status => "status"@,
        ProjectEditField::RequestedStatus => "requested status"@,
        ProjectEditField::Categories => "categories"@,
        ProjectEditField::AdditionalCategories => "additional categories"@,
        ProjectEditField::IssuesUrl => "issues URL"@,
        ProjectEditField::SourceUrl => "source URL"@,
        ProjectEditField::WikiUrl => "wiki URL"@,
        ProjectEditField::LicenseUrl => "license URL"@,
        ProjectEditField::DiscordUrl => "discord URL"@,
        ProjectEditField::Slug => "slug"@,
        ProjectEditField::License => "license"@,
        ProjectEditField::DonationLinks => "donation links"@,
        ProjectEditField::Body => "body"@,
        ProjectEditField::MonetizationStatus => "monetization status"@,
    }
}

/// Whether editing the field needs the body permission (otherwise the details permission).
pub open spec fn spec_needs_body_permission(field: ProjectEditField) -> bool {
    field == ProjectEditField::Body
}

/// The message that refuses an edit of the field.
pub open spec fn spec_field_refusal(field: ProjectEditField) -> Seq<char> {
    "You do not have the permissions to edit the "@ + spec_field_words(field) + " of this project!"@
}

fn field_words(field: ProjectEditField) -> (r: &'static str)
    ensures
        r@ == spec_field_words(field),
{
    match field {
        ProjectEditField::Title => "title",
        ProjectEditField::Description => "description",
        ProjectEditField::Status => "status",
        ProjectEditField::RequestedStatus => "requested status",
        ProjectEditField::Categories => "categories",
        ProjectEditField::AdditionalCategories => "additional categories",
        ProjectEditField::IssuesUrl => "issues URL",
        ProjectEditField::SourceUrl => "source URL",
        ProjectEditField::WikiUrl => "wiki URL",
        ProjectEditField::LicenseUrl => "license URL",
        ProjectEditField::DiscordUrl => "discord URL",
        ProjectEditField::Slug => "slug",
        ProjectEditField::License => "license",
        ProjectEditField::DonationLinks => "donation links",
        ProjectEditField::Body => "body",
        ProjectEditField::MonetizationStatus => "monetization status",
    }
}

/// Whether the caller may edit the field: the body needs the body permission,
/// every other field the details permission.
pub fn check_field_permission(can_edit_details: bool, can_edit_body: bool, field: ProjectEditField) -> (r: Result<(), ApiError>)
    ensures
        r is Ok <==> (if spec_needs_body_permission(field) { can_edit_body } else { can_edit_details }),
        r matches Err(ApiError::CustomAuthentication(m)) ==> m@ == spec_field_refusal(field),
        r is Err ==> r matches Err(ApiError::CustomAuthentication(_)),
{
    let allowed = if field == ProjectEditField::Body { can_edit_body } else { can_edit_details };
    if allowed {
        Ok(())
    } else {
        let mut m = "You do not have the permissions to edit the ".to_owned();
        m.append(field_words(field));
        m.append(" of this project!");
        Err(ApiError::CustomAuthentication(m))
    }
}

/// The first step of a project edit: a project that does not exist is not
/// found; one that the user has no permissions on is refused.
pub fn check_project_edit(project_exists: bool, has_permissions: bool) -> (r: Result<EditStart, ApiError>)
    ensures
        !project_exists ==> r matches Ok(EditStart::NotFound),
        project_exists && has_permissions ==> r matches Ok(EditStart::Edit),
        project_exists && !has_permissions ==> (r matches Err(ApiError::CustomAuthentication(m))
            && m@ == "You do not have permission to edit this project!"@),
{
    if !project_exists {
        Ok(EditStart::NotFound)
    } else if has_permissions {
        Ok(EditStart::Edit)
    } else {
        Err(ApiError::CustomAuthentication("You do not have permission to edit this project!".to_owned()))
    }
}

/// What the edit logic reads of a project status.
#[derive(Debug, Clone, Copy, PartialEq, Eq, Structural)]
pub struct StatusFacts {
    pub is_approved: bool,
    pub is_searchable: bool,
    pub can_be_requested: bool,
    pub is_processing: bool,
}

/// What the edit logic reads of a project status: approved for approved,
/// archived, unlisted and private projects; searchable for approved and
/// archived ones; requestable for those and drafts; processing for
/// processing ones.
pub open spec fn spec_status_facts(s: ProjectStatus) -> StatusFacts {
    StatusFacts {
        is_approved: s is Approved || s is Archived || s is Unlisted || s is Private,
        is_searchable: s is Approved || s is Archived,
        can_be_requested: s is Approved || s is Archived || s is Unlisted || s is Private || s is Draft,
        is_processing: s is Processing,
    }
}

/// What the edit logic reads of a project status.
pub fn status_facts(s: ProjectStatus) -> (r: StatusFacts)
    ensures
        r == spec_status_facts(s),
{
    let is_approved = match s {
        ProjectStatus::Approved | ProjectStatus::Archived | ProjectStatus::Unlisted | ProjectStatus::Private => true,
        _ => false,
    };
    let is_searchable = match s {
        ProjectStatus::Approved | ProjectStatus::Archived => true,
        _ => false,
    };
    let can_be_requested = match s {
        ProjectStatus::Approved | ProjectStatus::Archived | ProjectStatus::Unlisted | ProjectStatus::Private
        | ProjectStatus::Draft => true,
        _ => false,
    };
    let is_processing = match s {
        ProjectStatus::Processing => true,
        _ => false,
    };
    StatusFacts { is_approved, is_searchable, can_be_requested, is_processing }
}

/// What a status change brings with it besides the new status and the
/// thread message that records it.
#[derive(Debug, Clone, Copy, PartialEq, Eq, Structural)]
pub struct StatusChangePlan {
    /// Clear the moderation message and queue the project (status set to processing).
    pub queue_for_review: bool,
    /// Record the approval time (first approval).
    pub set_approved: bool,
    /// Announce the project publicly (it becomes searchable and was not announced).
    pub announce_publicly: bool,
    /// Tell the moderators' channel who changed the status.
    pub announce_to_moderators: bool,
    /// Notify the accepted team members.
    pub notify_members: bool,
    /// Remove the project from the search index.
    pub remove_from_index: bool,
}

/// Whether the caller may move a project from `current` to `new`: moderators
/// always; others may submit an unapproved project for review, or move an
/// approved one to a status that can be requested.
pub open spec fn spec_status_change_allowed(is_mod: bool, current: StatusFacts, new: StatusFacts) -> bool {
    is_mod || (!current.is_approved && new.is_processing) || (current.is_approved && new.can_be_requested)
}

/// What a permitted status change brings with it.
pub open spec fn spec_status_change_plan(
    is_mod: bool,
    current: StatusFacts,
    new: StatusFacts,
    webhook_sent: bool,
    member_accepted: Option<bool>,
) -> StatusChangePlan {
    StatusChangePlan {
        queue_for_review: new.is_processing,
        set_approved: new.is_approved && !current.is_approved,
        announce_publicly: new.is_searchable && !webhook_sent,
        announce_to_moderators: is_mod,
        notify_members: match member_accepted { Some(a) => !a, None => true },
        remove_from_index: current.is_searchable && !new.is_searchable,
    }
}

/// A project is announced publicly at most once: never when the public
/// announcement was already sent, and only when the new status is
/// searchable. It is taken out of search exactly when it stops being
/// searchable, and approved anew only when it was not approved before.
pub proof fn lemma_status_change_announces_once(
    is_mod: bool,
    current: StatusFacts,
    new: StatusFacts,
    webhook_sent: bool,
    member_accepted: Option<bool>,
)
    ensures
        webhook_sent ==> !spec_status_change_plan(is_mod, current, new, webhook_sent, member_accepted).announce_publicly,
        spec_status_change_plan(is_mod, current, new, webhook_sent, member_accepted).announce_publicly
            <==> (new.is_searchable && !webhook_sent),
        spec_status_change_plan(is_mod, current, new, webhook_sent, member_accepted).remove_from_index
            <==> (current.is_searchable && !new.is_searchable),
        spec_status_change_plan(is_mod, current, new, webhook_sent, member_accepted).set_approved
            <==> (new.is_approved && !current.is_approved),
        spec_status_change_plan(is_mod, current, new, webhook_sent, member_accepted).queue_for_review <==> new.is_processing,
        spec_status_change_plan(is_mod, current, new, webhook_sent, member_accepted).announce_to_moderators <==> is_mod,
        spec_status_change_plan(is_mod, current, new, webhook_sent, member_accepted).announce_publicly
            ==> !spec_status_change_plan(is_mod, current, new, webhook_sent, member_accepted).remove_from_index,
{
}

/// Decides a status change of a project edit. Refusals come in this order:
/// no details permission; a status the caller may not set; a submission for
/// review of a project without versions. `member_accepted` is whether the
/// caller's project team membership is accepted, `None` without membership.
pub fn plan_status_change(
    can_edit_details: bool,
    is_mod: bool,
    current: StatusFacts,
    new: StatusFacts,
    has_versions: bool,
    webhook_sent: bool,
    member_accepted: Option<bool>,
) -> (r: Result<StatusChangePlan, ApiError>)
    ensures
        !can_edit_details ==> (r matches Err(ApiError::CustomAuthentication(m)) && m@ == spec_field_refusal(ProjectEditField::Status)),
        can_edit_details && !spec_status_change_allowed(is_mod, current, new) ==>
            (r matches Err(ApiError::CustomAuthentication(m)) && m@ == "You don't have permission to set this status!"@),
        can_edit_details && spec_status_change_allowed(is_mod, current, new) && new.is_processing && !has_versions ==>
            (r matches Err(ApiError::InvalidInput(m)) && m@ == "Project submitted for review with no initial versions"@),
        can_edit_details && spec_status_change_allowed(is_mod, current, new) && !(new.is_processing && !has_versions) ==>
            r == Ok::<StatusChangePlan, ApiError>(spec_status_change_plan(is_mod, current, new, webhook_sent, member_accepted)),
        r matches Ok(p) ==> (p.announce_publicly <==> (new.is_searchable && !webhook_sent)),
        r matches Ok(p) ==> (p.remove_from_index <==> (current.is_searchable && !new.is_searchable)),
{
    check_field_permission(can_edit_details, true, ProjectEditField::Status)?;
    if !(is_mod || !current.is_approved && new.is_processing || current.is_approved && new.can_be_requested) {
        return Err(ApiError::CustomAuthentication("You don't have permission to set this status!".to_owned()));
    }
    if new.is_processing && !has_versions {
        return Err(ApiError::InvalidInput("Project submitted for review with no initial versions".to_owned()));
    }
    Ok(StatusChangePlan {
        queue_for_review: new.is_processing,
        set_approved: new.is_approved && !current.is_approved,
        announce_publicly: new.is_searchable && !webhook_sent,
        announce_to_moderators: is_mod,
        notify_members: match member_accepted { Some(a) => !a, None => true },
        remove_from_index: current.is_searchable && !new.is_searchable,
    })
}

/// Decides a change of a project's status from `current` to `new`, as
/// `plan_status_change` does on what the two statuses say.
pub fn plan_project_status_change(
    can_edit_details: bool,
    is_mod: bool,
    current: ProjectStatus,
    new: ProjectStatus,
    has_versions: bool,
    webhook_sent: bool,
    member_accepted: Option<bool>,
) -> (r: Result<StatusChangePlan, ApiError>)
    ensures
        !can_edit_details ==> (r matches Err(ApiError::CustomAuthentication(m)) && m@ == spec_field_refusal(ProjectEditField::Status)),
        can_edit_details && !spec_status_change_allowed(is_mod, spec_status_facts(current), spec_status_facts(new)) ==>
            (r matches Err(ApiError::CustomAuthentication(m)) && m@ == "You don't have permission to set this status!"@),
        can_edit_details && spec_status_change_allowed(is_mod, spec_status_facts(current), spec_status_facts(new))
            && new is Processing && !has_versions ==>
            (r matches Err(ApiError::InvalidInput(m)) && m@ == "Project submitted for review with no initial versions"@),
        can_edit_details && spec_status_change_allowed(is_mod, spec_status_facts(current), spec_status_facts(new))
            && !(new is Processing && !has_versions) ==>
            r == Ok::<StatusChangePlan, ApiError>(spec_status_change_plan(is_mod, spec_status_facts(current),
                spec_status_facts(new), webhook_sent, member_accepted)),
{
    let c = status_facts(current);
    let n = status_facts(new);
    plan_status_change(can_edit_details, is_mod, c, n, has_versions, webhook_sent, member_accepted)
}

/// Checks a change of the requested status: `requested` is `None` to clear it,
/// else whether the requested status can be requested.
pub fn check_requested_status(can_edit_details: bool, requested: Option<bool>) -> (r: Result<(), ApiError>)
    ensures
        !can_edit_details ==> (r matches Err(ApiError::CustomAuthentication(m)) && m@ == spec_field_refusal(ProjectEditField::RequestedStatus)),
        can_edit_details && requested == Some(false) ==>
            (r matches Err(ApiError::InvalidInput(m)) && m@ == "Specified status cannot be requested!"@),
        can_edit_details && requested != Some(false) ==> r is Ok,
{
    check_field_permission(can_edit_details, true, ProjectEditField::RequestedStatus)?;
    match requested {
        Some(false) => Err(ApiError::InvalidInput("Specified status cannot be requested!".to_owned())),
        _ => Ok(()),
    }
}

/// Checks an edit of the moderation message (`body` false) or of its body
/// (`body` true): others than moderators may only clear it, and only on an
/// approved project.
pub fn check_moderation_message(is_mod: bool, current_approved: bool, sets_message: bool, body: bool) -> (r: Result<(), ApiError>)
    ensures
        r is Ok <==> (is_mod || (current_approved && !sets_message)),
        r matches Err(ApiError::CustomAuthentication(m)) ==> m@ == (if body {
            "You do not have the permissions to edit the moderation message body of this project!"@
        } else {
            "You do not have the permissions to edit the moderation message of this project!"@
        }),
        r is Err ==> r matches Err(ApiError::CustomAuthentication(_)),
{
    if !is_mod && (!current_approved || sets_message) {
        if body {
            Err(ApiError::CustomAuthentication(
                "You do not have the permissions to edit the moderation message body of this project!".to_owned()))
        } else {
            Err(ApiError::CustomAuthentication(
                "You do not have the permissions to edit the moderation message of this project!".to_owned()))
        }
    } else {
        Ok(())
    }
}

/// Checks an edit of the monetization status: the details permission, and a
/// moderator where the old or the new status is forced demonetization.
pub fn check_monetization_status(
    can_edit_details: bool,
    is_mod: bool,
    new_force_demonetized: bool,
    current_force_demonetized: bool,
) -> (r: Result<(), ApiError>)
    ensures
        r is Ok <==> can_edit_details && (is_mod || !(new_force_demonetized || current_force_demonetized)),
        r matches Err(ApiError::CustomAuthentication(m)) ==> m@ == spec_field_refusal(ProjectEditField::MonetizationStatus),
        r is Err ==> r matches Err(ApiError::CustomAuthentication(_)),
{
    check_field_permission(can_edit_details, true, ProjectEditField::MonetizationStatus)?;
    if (new_force_demonetized || current_force_demonetized) && !is_mod {
        return check_field_permission(false, true, ProjectEditField::MonetizationStatus);
    }
    Ok(())
}

/// Why the text is no valid SPDX license expression, where it is not one.
pub uninterp spec fn spdx_parse_error(s: Seq<char>) -> Option<Seq<char>>;

/// Parses an SPDX license expression and writes it back.
/// Trusted: calls `spdx::Expression::parse`; on success gives the parsed
/// expression's `Display`, which the crate's source writes as the text that
/// was parsed; on an error gives the error's `Display`, named as a function of
/// the text.
#[verifier::external_body]
pub(crate) fn spdx_expression(s: &str) -> (r: Result<String, String>)
    ensures
        match r {
            Ok(t) => spdx_parse_error(s@) is None && t@ == s@,
            Err(m) => spdx_parse_error(s@) == Some(m@),
        },
{
    match spdx::Expression::parse(s) {
        Ok(e) => Ok(e.to_string()),
        Err(e) => Err(e.to_string()),
    }
}

/// The license to store: `arr` in any case stands for all rights reserved.
pub open spec fn spec_normalized_license(license: Seq<char>) -> Seq<char> {
    if lowercase(license) == "arr"@ { DEFAULT_LICENSE_ID@ } else { license }
}

/// Checks a new license of a project: the details permission, then a valid
/// SPDX expression (after `arr` is read as all rights reserved). Gives the
/// license to store.
pub fn check_project_license(can_edit_details: bool, license: &str) -> (r: Result<String, ApiError>)
    ensures
        !can_edit_details ==> (r matches Err(ApiError::CustomAuthentication(m)) && m@ == spec_field_refusal(ProjectEditField::License)),
        can_edit_details ==> match spdx_parse_error(spec_normalized_license(license@)) {
            None => r matches Ok(l) && l@ == spec_normalized_license(license@),
            Some(e) => r matches Err(ApiError::InvalidInput(m)) && m@ == "Invalid SPDX license identifier: "@ + e,
        },
{
    check_field_permission(can_edit_details, true, ProjectEditField::License)?;
    let lower = to_lowercase(license);
    let normalized = if str_eq(lower.as_str(), "arr") { DEFAULT_LICENSE_ID.to_owned() } else { license.to_owned() };
    match spdx_expression(normalized.as_str()) {
        Ok(_) => Ok(normalized),
        Err(e) => {
            let mut m = "Invalid SPDX license identifier: ".to_owned();
            m.append(e.as_str());
            Err(ApiError::InvalidInput(m))
        },
    }
}


/// What an edit of the slug must look up before it is stored: the project
/// whose id the slug reads as in base62 (if it reads as one), and whether
/// another project already has this slug (asked only when the slug changes;
/// a project without a slug counts as having the empty one).
pub struct SlugLookups {
    pub id_to_check: Option<u64>,
    pub check_slug_taken: bool,
}

/// The lookups an edit of the slug needs.
pub fn slug_lookups(slug: &str, current: Option<&str>) -> (r: SlugLookups)
    ensures
        r.id_to_check == match spec_parse_base62(slug@) { Ok(n) => Some(n), Err(_) => None::<u64> },
        r.check_slug_taken == (slug@ != match current { Some(c) => c@, None => Seq::<char>::empty() }),
{
    let id_to_check = match parse_base62(slug) {
        Ok(n) => Some(n),
        Err(_) => None,
    };
    let same = match current {
        Some(c) => str_eq(slug, c),
        None => {
            proof {
                reveal_strlit("");
                assert(""@ =~= Seq::<char>::empty());
            }
            str_eq(slug, "")
        },
    };
    SlugLookups { id_to_check, check_slug_taken: !same }
}

/// The refusal of a slug that a lookup says collides: a lookup that found a
/// project, or gave no answer, refuses it.
pub fn check_slug_lookup(found: Option<bool>) -> (r: Result<(), ApiError>)
    ensures
        r is Ok <==> found == Some(false),
        r is Err ==> (r matches Err(ApiError::InvalidInput(m)) && m@ == "Slug collides with other project's id!"@),
{
    match found {
        Some(false) => Ok(()),
        _ => Err(ApiError::InvalidInput("Slug collides with other project's id!".to_owned())),
    }
}

/// The refusal of a donation link to a platform the site does not know.
pub fn unknown_donation_platform(platform: &str) -> (r: ApiError)
    ensures
        r matches ApiError::InvalidInput(m) && m@ == "Platform "@ + platform@ + " does not exist."@,
{
    let mut m = "Platform ".to_owned();
    m.append(platform);
    m.append(" does not exist.");
    ApiError::InvalidInput(m)
}


/// The refusal of a category of an edit that names no category.
pub fn unknown_category(category: &str) -> (r: ApiError)
    ensures
        r matches ApiError::InvalidInput(m) && m@ == "Category "@ + category@ + " does not exist."@,
{
    let mut m = "Category ".to_owned();
    m.append(category);
    m.append(" does not exist.");
    ApiError::InvalidInput(m)
}

} // verus!
