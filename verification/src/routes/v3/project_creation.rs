//! Project creation (v3): the request body, its defaults, and how a failed
//! creation is answered.
use vstd::prelude::*;
use crate::models::ids::{parse_base62, spec_parse_base62, spec_to_base62, to_base62, ImageId, OrganizationId, ProjectId, TeamId, UserId, VersionId};
use crate::models::projects::{MonetizationStatus, ProjectStatus};
use crate::models::teams::{ProjectPermissions, ALL_PROJECT_PERMISSIONS};
use crate::routes::v3::projects::{spdx_expression, spdx_parse_error};
use crate::util::text::str_eq;

verus! {

broadcast use vstd::string::group_string_axioms;

/// Why a project or version could not be created. Errors that other
/// components report are held by their message.
#[derive(Debug)]
pub enum CreateError {
    EnvError,
    SqlxDatabaseError,
    DatabaseError(String),
    IndexingError(String),
    MultipartError(String),
    SerDeError(String),
    ValidationError(String),
    FileHostingError(String),
    FileValidationError(String),
    MissingValueError(String),
    InvalidIconFormat(String),
    InvalidInput(String),
    InvalidGameVersion(String),
    InvalidLoader(String),
    InvalidCategory(String),
    InvalidFileType(String),
    SlugCollision,
    Unauthorized(String),
    CustomAuthenticationError(String),
    ImageError(String),
    RerouteError(String),
}

/// The HTTP status a creation error is answered with: 500 for failures of
/// the server's own parts, 401 for authentication, 400 for the rest.
pub open spec fn spec_status_code(e: CreateError) -> u16 {
    match e {
        CreateError::EnvError => 500,
        CreateError::SqlxDatabaseError => 500,
        CreateError::DatabaseError(_) => 500,
        CreateError::IndexingError(_) => 500,
        CreateError::FileHostingError(_) => 500,
        CreateError::RerouteError(_) => 500,
        CreateError::Unauthorized(_) => 401,
        CreateError::CustomAuthenticationError(_) => 401,
        _ => 400,
    }
}

/// The error name a creation error is answered with.
pub open spec fn spec_error_name(e: CreateError) -> Seq<char> {
    match e {
        CreateError::EnvError => "environment_error"@,
        CreateError::SqlxDatabaseError => "database_error"@,
        CreateError::DatabaseError(_) => "database_error"@,
        CreateError::IndexingError(_) => "indexing_error"@,
        CreateError::FileHostingError(_) => "file_hosting_error"@,
        CreateError::Unauthorized(_) => "unauthorized"@,
        CreateError::CustomAuthenticationError(_) => "unauthorized"@,
        CreateError::ImageError(_) => "invalid_image"@,
        CreateError::RerouteError(_) => "reroute_error"@,
        _ => "invalid_input"@,
    }
}

/// The text that describes a creation error.
pub open spec fn spec_description(e: CreateError) -> Seq<char> {
    match e {
        CreateError::EnvError => "Environment Error"@,
        CreateError::SqlxDatabaseError => "An unknown database error occurred"@,
        CreateError::DatabaseError(m) => "Database Error: "@ + m@,
        CreateError::IndexingError(m) => "Indexing Error: "@ + m@,
        CreateError::MultipartError(m) => "Error while parsing multipart payload: "@ + m@,
        CreateError::SerDeError(m) => "Error while parsing JSON: "@ + m@,
        CreateError::ValidationError(m) => "Error while validating input: "@ + m@,
        CreateError::FileHostingError(m) => "Error while uploading file: "@ + m@,
        CreateError::FileValidationError(m) => "Error while validating uploaded file: "@ + m@,
        CreateError::MissingValueError(m) => m@,
        CreateError::InvalidIconFormat(m) => "Invalid format for image: "@ + m@,
        CreateError::InvalidInput(m) => "Error with multipart data: "@ + m@,
        CreateError::InvalidGameVersion(m) => "Invalid game version: "@ + m@,
        CreateError::InvalidLoader(m) => "Invalid loader: "@ + m@,
        CreateError::InvalidCategory(m) => "Invalid category: "@ + m@,
        CreateError::InvalidFileType(m) => "Invalid file type for version file: "@ + m@,
        CreateError::SlugCollision => "Slug is already taken!"@,
        CreateError::Unauthorized(m) => "Authentication Error: "@ + m@,
        CreateError::CustomAuthenticationError(m) => "Authentication Error: "@ + m@,
        CreateError::ImageError(m) => "Image Parsing Error: "@ + m@,
        CreateError::RerouteError(m) => "Reroute Error: "@ + m@,
    }
}

fn prefixed(prefix: &str, m: &String) -> (r: String)
    ensures
        r@ == prefix@ + m@,
{
    let mut r = prefix.to_owned();
    r.append(m.as_str());
    r
}

impl CreateError {
    /// The HTTP status this error is answered with.
    pub fn status_code(&self) -> (r: u16)
        ensures
            r == spec_status_code(*self),
    {
        match self {
            CreateError::EnvError => 500,
            CreateError::SqlxDatabaseError => 500,
            CreateError::DatabaseError(_) => 500,
            CreateError::IndexingError(_) => 500,
            CreateError::FileHostingError(_) => 500,
            CreateError::RerouteError(_) => 500,
            CreateError::Unauthorized(_) => 401,
            CreateError::CustomAuthenticationError(_) => 401,
            _ => 400,
        }
    }

    /// The error name this error is answered with.
    pub fn error_name(&self) -> (r: &'static str)
        ensures
            r@ == spec_error_name(*self),
    {
        match self {
            CreateError::EnvError => "environment_error",
            CreateError::SqlxDatabaseError => "database_error",
            CreateError::DatabaseError(_) => "database_error",
            CreateError::IndexingError(_) => "indexing_error",
            CreateError::FileHostingError(_) => "file_hosting_error",
            CreateError::Unauthorized(_) => "unauthorized",
            CreateError::CustomAuthenticationError(_) => "unauthorized",
            CreateError::ImageError(_) => "invalid_image",
            CreateError::RerouteError(_) => "reroute_error",
            _ => "invalid_input",
        }
    }

    /// The text that describes this error.
    pub fn description(&self) -> (r: String)
        ensures
            r@ == spec_description(*self),
    {
        match self {
            CreateError::EnvError => "Environment Error".to_owned(),
            CreateError::SqlxDatabaseError => "An unknown database error occurred".to_owned(),
            CreateError::DatabaseError(m) => prefixed("Database Error: ", m),
            CreateError::IndexingError(m) => prefixed("Indexing Error: ", m),
            CreateError::MultipartError(m) => prefixed("Error while parsing multipart payload: ", m),
            CreateError::SerDeError(m) => prefixed("Error while parsing JSON: ", m),
            CreateError::ValidationError(m) => prefixed("Error while validating input: ", m),
            CreateError::FileHostingError(m) => prefixed("Error while uploading file: ", m),
            CreateError::FileValidationError(m) => prefixed("Error while validating uploaded file: ", m),
            CreateError::MissingValueError(m) => m.clone(),
            CreateError::InvalidIconFormat(m) => prefixed("Invalid format for image: ", m),
            CreateError::InvalidInput(m) => prefixed("Error with multipart data: ", m),
            CreateError::InvalidGameVersion(m) => prefixed("Invalid game version: ", m),
            CreateError::InvalidLoader(m) => prefixed("Invalid loader: ", m),
            CreateError::InvalidCategory(m) => prefixed("Invalid category: ", m),
            CreateError::InvalidFileType(m) => prefixed("Invalid file type for version file: ", m),
            CreateError::SlugCollision => "Slug is already taken!".to_owned(),
            CreateError::Unauthorized(m) => prefixed("Authentication Error: ", m),
            CreateError::CustomAuthenticationError(m) => prefixed("Authentication Error: ", m),
            CreateError::ImageError(m) => prefixed("Image Parsing Error: ", m),
            CreateError::RerouteError(m) => prefixed("Reroute Error: ", m),
        }
    }
}

/// The project type when the request names none.
pub fn default_project_type() -> (r: String)
    ensures
        r@ == "mod"@,
{
    "mod".to_owned()
}

/// The status a new project asks for when the request names none.
pub fn default_requested_status() -> (r: ProjectStatus)
    ensures
        r == ProjectStatus::Approved,
{
    ProjectStatus::Approved
}

/// The description of a new project, sent before its files.
pub struct ProjectCreateData {
    /// The title or name of the project.
    pub name: String,
    /// The slug of the project, used in its address.
    pub slug: String,
    /// A short description of the project.
    pub summary: String,
    /// A long description of the project, in markdown.
    pub description: String,
    pub categories: Vec<String>,
    pub additional_categories: Vec<String>,
    pub license_url: Option<String>,
    /// Links of the project by platform.
    pub link_urls: Vec<(String, String)>,
    pub license_id: String,
    /// The status the project is to have once approved.
    pub requested_status: ProjectStatus,
    /// Images uploaded for the body, to be attached to the project.
    pub uploaded_images: Vec<ImageId>,
    /// The organization to create the project in.
    pub organization_id: Option<OrganizationId>,
}

/// A file uploaded while a project was being created.
pub struct UploadedFile {
    pub file_id: String,
    pub file_name: String,
}

/// The first part of a project upload must be the `data` part: `first` is
/// `None` when there is no part at all, `Some(None)` for a part without a name.
pub fn check_data_part(first: Option<Option<&str>>) -> (r: Result<(), CreateError>)
    ensures
        r is Ok <==> (first matches Some(Some(n)) && n@ == "data"@),
        first is None ==> (r matches Err(CreateError::MissingValueError(m)) && m@ == "No `data` field in multipart upload"@),
        first == Some(None::<&str>) ==> (r matches Err(CreateError::MissingValueError(m)) && m@ == "Missing content name"@),
        first matches Some(Some(n)) && n@ != "data"@ ==> (r matches Err(CreateError::InvalidInput(m))
            && m@ == "`data` field must come before file fields"@),
{
    match first {
        None => Err(CreateError::MissingValueError("No `data` field in multipart upload".to_owned())),
        Some(None) => Err(CreateError::MissingValueError("Missing content name".to_owned())),
        Some(Some(n)) => {
            if str_eq(n, "data") {
                Ok(())
            } else {
                Err(CreateError::InvalidInput("`data` field must come before file fields".to_owned()))
            }
        },
    }
}

/// Where a project upload stands after the `data` part: whether the icon
/// came, and the first error met (the remaining parts are then only read).
pub struct UploadState {
    pub icon_uploaded: bool,
    pub error: Option<CreateError>,
}

/// What to do with the next part of a project upload.
#[derive(Debug, Clone, Copy, PartialEq, Eq, Structural)]
pub enum PartAction {
    /// Upload the part as the project's icon.
    UploadIcon,
    /// Read the part and drop it.
    Skip,
}

/// The text refusing a part that is neither data nor the icon.
pub open spec fn spec_unrecognized(file_name: Seq<char>, name: Seq<char>) -> Seq<char> {
    "File `"@ + file_name + "` (field "@ + name
        + ") isn't recognized. If it's a version, please use the version creation route after creating your project."@
}

/// What the decisions of an upload read of its state: whether the icon came,
/// and whether an error was met.
pub open spec fn upload_facts(state: UploadState) -> (bool, bool) {
    (state.icon_uploaded, state.error is Some)
}

/// What a part is to the decisions: `None` without a name, `Some(true)` for
/// the icon, `Some(false)` for any other part.
pub open spec fn part_kind(name: Option<&str>) -> Option<bool> {
    match name {
        None => None,
        Some(n) => Some(n@ == "icon"@),
    }
}

/// One part of an upload, as the decisions see it: after an error every part
/// is skipped; the first icon is uploaded; anything else sets an error.
pub open spec fn spec_part_step(facts: (bool, bool), kind: Option<bool>) -> ((bool, bool), PartAction) {
    if facts.1 {
        (facts, PartAction::Skip)
    } else if kind == Some(true) && !facts.0 {
        (facts, PartAction::UploadIcon)
    } else {
        ((facts.0, true), PartAction::Skip)
    }
}

/// The end of an icon upload, as the decisions see it: success marks the
/// icon as there, failure sets the error.
pub open spec fn spec_icon_step(facts: (bool, bool), ok: bool) -> (bool, bool) {
    if ok { (true, facts.1) } else { (facts.0, true) }
}

/// How many icons the parts of an upload get uploaded, from the given state:
/// each part is `(kind, ok)`, `ok` being how its upload ends where it is
/// uploaded as the icon.
pub open spec fn icons_uploaded(facts: (bool, bool), parts: Seq<(Option<bool>, bool)>) -> nat
    decreases parts.len(),
{
    if parts.len() == 0 {
        0
    } else {
        let (after, action) = spec_part_step(facts, parts[0].0);
        if action == PartAction::UploadIcon {
            1 + icons_uploaded(spec_icon_step(after, parts[0].1), parts.drop_first())
        } else {
            icons_uploaded(after, parts.drop_first())
        }
    }
}

proof fn lemma_no_icon_after(facts: (bool, bool), parts: Seq<(Option<bool>, bool)>)
    requires
        facts.0 || facts.1,
    ensures
        icons_uploaded(facts, parts) == 0,
    decreases parts.len(),
{
    if parts.len() > 0 {
        let (after, action) = spec_part_step(facts, parts[0].0);
        assert(action != PartAction::UploadIcon);
        lemma_no_icon_after(after, parts.drop_first());
    }
}

/// A project has at most one icon: however the parts of an upload come and
/// however icon uploads end, a fresh upload uploads at most one icon.
pub proof fn lemma_at_most_one_icon(parts: Seq<(Option<bool>, bool)>)
    ensures
        icons_uploaded((false, false), parts) <= 1,
    decreases parts.len(),
{
    if parts.len() > 0 {
        let (after, action) = spec_part_step((false, false), parts[0].0);
        if action == PartAction::UploadIcon {
            lemma_no_icon_after(spec_icon_step(after, parts[0].1), parts.drop_first());
        } else {
            lemma_no_icon_after(after, parts.drop_first());
        }
    }
}

/// The decision on the next part of a project upload, named `name` (if it
/// has a name) and holding the file `file_name`: after an error, every part
/// is skipped; a part without a name, a second icon, or any part other than
/// the icon is an error; the first icon is uploaded.
pub fn next_part(state: &mut UploadState, name: Option<&str>, file_name: &str) -> (r: PartAction)
    ensures
        spec_part_step(upload_facts(*old(state)), part_kind(name)) == (upload_facts(*final(state)), r),
        old(state).error is Some ==> r == PartAction::Skip && final(state).error == old(state).error
            && final(state).icon_uploaded == old(state).icon_uploaded,
        final(state).icon_uploaded == old(state).icon_uploaded,
        old(state).error is None ==> match name {
            None => r == PartAction::Skip && (final(state).error matches Some(CreateError::MissingValueError(m))
                && m@ == "Missing content name"@),
            Some(n) => if n@ == "icon"@ {
                if old(state).icon_uploaded {
                    r == PartAction::Skip && (final(state).error matches Some(CreateError::InvalidInput(m))
                        && m@ == "Projects can only have one icon"@)
                } else {
                    r == PartAction::UploadIcon && final(state).error is None
                }
            } else {
                r == PartAction::Skip && (final(state).error matches Some(CreateError::InvalidInput(m))
                    && m@ == spec_unrecognized(file_name@, n@))
            },
        },
{
    if state.error.is_some() {
        return PartAction::Skip;
    }
    match name {
        None => {
            state.error = Some(CreateError::MissingValueError("Missing content name".to_owned()));
            PartAction::Skip
        },
        Some(n) => {
            if str_eq(n, "icon") {
                if state.icon_uploaded {
                    state.error = Some(CreateError::InvalidInput("Projects can only have one icon".to_owned()));
                    PartAction::Skip
                } else {
                    PartAction::UploadIcon
                }
            } else {
                let mut m = "File `".to_owned();
                m.append(file_name);
                m.append("` (field ");
                m.append(n);
                m.append(") isn't recognized. If it's a version, please use the version creation route after creating your project.");
                state.error = Some(CreateError::InvalidInput(m));
                PartAction::Skip
            }
        },
    }
}

/// Records how an icon upload ended: on success the icon is there; a failure
/// becomes the upload's error.
pub fn icon_done(state: &mut UploadState, outcome: Result<(), CreateError>)
    requires
        old(state).error is None,
    ensures
        upload_facts(*final(state)) == spec_icon_step(upload_facts(*old(state)), outcome is Ok),
        match outcome {
            Ok(()) => final(state).icon_uploaded && final(state).error is None,
            Err(e) => final(state).icon_uploaded == old(state).icon_uploaded && final(state).error == Some(e),
        },
{
    match outcome {
        Ok(()) => {
            state.icon_uploaded = true;
        },
        Err(e) => {
            state.error = Some(e);
        },
    }
}

/// The license a new project stores: the SPDX expression as given, when it
/// parses.
pub fn project_license(license_id: &str) -> (r: Result<String, CreateError>)
    ensures
        match spdx_parse_error(license_id@) {
            None => r matches Ok(l) && l@ == license_id@,
            Some(e) => r matches Err(CreateError::InvalidInput(m)) && m@ == "Invalid SPDX license identifier: "@ + e,
        },
{
    match spdx_expression(license_id) {
        Ok(text) => Ok(text),
        Err(e) => {
            let mut m = "Invalid SPDX license identifier: ".to_owned();
            m.append(e.as_str());
            Err(CreateError::InvalidInput(m))
        },
    }
}

/// The answer when a link names a platform that does not exist.
pub fn unknown_link_platform(platform: &str) -> (r: CreateError)
    ensures
        r matches CreateError::InvalidInput(m) && m@ == "Link platform "@ + platform@ + " does not exist."@,
{
    let mut m = "Link platform ".to_owned();
    m.append(platform);
    m.append(" does not exist.");
    CreateError::InvalidInput(m)
}

/// An uploaded image may be attached to a new project only while it sits in
/// the project context and belongs to no project yet.
pub fn check_project_image(image_id: ImageId, in_project_context: bool, attached: bool) -> (r: Result<(), CreateError>)
    ensures
        r is Ok <==> (in_project_context && !attached),
        r is Err ==> (r matches Err(CreateError::InvalidInput(m)) && m@ == "Image "@
            + spec_to_base62(image_id.0 as nat) + " is not unused and in the 'project' context"@),
{
    if !in_project_context || attached {
        let mut m = "Image ".to_owned();
        m.append(to_base62(image_id.0).as_str());
        m.append(" is not unused and in the 'project' context");
        return Err(CreateError::InvalidInput(m));
    }
    Ok(())
}

/// The member a new project's team starts with: its creator as the owner,
/// unless the project is created in an organization, whose team owns it.
pub fn initial_owner(organization_id: Option<OrganizationId>, creator: UserId) -> (r: Option<UserId>)
    ensures
        r == if organization_id is None { Some(creator) } else { None::<UserId> },
{
    if organization_id.is_none() {
        Some(creator)
    } else {
        None
    }
}

/// The team member a new project starts with.
#[derive(Debug, Clone, Copy, PartialEq, Eq, Structural)]
pub struct InitialMember {
    pub user_id: UserId,
    pub is_owner: bool,
    /// What the member may do in the project.
    pub permissions: ProjectPermissions,
    /// What the member may do in an organization (the bits of its
    /// permissions), where the member holds any.
    pub organization_permissions: Option<u64>,
    pub accepted: bool,
    /// The member's share of the payouts, in percent.
    pub payouts_split_percent: u32,
    pub ordering: i64,
}

/// The member a new project's team starts with: its creator, as the
/// accepted owner with every project permission, no organization permissions,
/// all of the payouts and the first place; none where the project is created
/// in an organization.
pub fn initial_member(organization_id: Option<OrganizationId>, creator: UserId) -> (r: Option<InitialMember>)
    ensures
        organization_id is Some ==> r is None,
        organization_id is None ==> r == Some(InitialMember {
            user_id: creator,
            is_owner: true,
            permissions: ProjectPermissions(ALL_PROJECT_PERMISSIONS),
            organization_permissions: None,
            accepted: true,
            payouts_split_percent: 100,
            ordering: 0,
        }),
{
    match initial_owner(organization_id, creator) {
        Some(user_id) => Some(InitialMember {
            user_id,
            is_owner: true,
            permissions: ProjectPermissions::all(),
            organization_permissions: None,
            accepted: true,
            payouts_split_percent: 100,
            ordering: 0,
        }),
        None => None,
    }
}

/// A project as its creation answers it. `D` is the type of a moment, `G` of
/// a gallery item.
pub struct NewProject<D, G> {
    pub id: ProjectId,
    pub slug: Option<String>,
    pub project_types: Vec<String>,
    pub games: Vec<String>,
    pub team_id: TeamId,
    pub organization: Option<OrganizationId>,
    pub name: String,
    pub summary: String,
    pub description: String,
    pub published: D,
    pub updated: D,
    pub approved: Option<D>,
    pub queued: Option<D>,
    pub status: ProjectStatus,
    pub requested_status: Option<ProjectStatus>,
    pub moderator_message: Option<String>,
    pub license_id: String,
    pub license_name: String,
    pub license_url: Option<String>,
    pub downloads: u32,
    pub followers: u32,
    pub categories: Vec<String>,
    pub additional_categories: Vec<String>,
    pub loaders: Vec<String>,
    pub versions: Vec<VersionId>,
    pub icon_url: Option<String>,
    pub gallery: Vec<G>,
    pub color: Option<u32>,
    pub thread_id: u64,
    pub monetization_status: MonetizationStatus,
}

/// What the creation of a project answers with: the data as sent (its slug,
/// name, summary, description, license, categories), the ids given to the
/// project, its team and its thread, the icon's address and colour where one
/// was uploaded, and a fresh project: published and updated `now`, a draft
/// asking for the requested status, monetized, never approved or queued, no
/// moderator message, no downloads or followers, no project types, games,
/// loaders, versions or gallery, and a license without a name.
pub fn new_project_record<D: Copy, G>(
    data: ProjectCreateData,
    id: ProjectId,
    team_id: TeamId,
    thread_id: u64,
    icon: Option<(String, Option<u32>)>,
    now: D,
) -> (r: NewProject<D, G>)
    ensures
        r.id == id && r.team_id == team_id && r.thread_id == thread_id,
        r.slug matches Some(s) && s@ == data.slug@,
        r.organization == data.organization_id,
        r.name@ == data.name@ && r.summary@ == data.summary@ && r.description@ == data.description@,
        r.published == now && r.updated == now && r.approved is None && r.queued is None,
        r.status == ProjectStatus::Draft && r.requested_status == Some(data.requested_status),
        r.moderator_message is None,
        r.license_id@ == data.license_id@ && r.license_name@ == Seq::<char>::empty(),
        r.license_url == data.license_url,
        r.downloads == 0 && r.followers == 0,
        r.categories@ == data.categories@ && r.additional_categories@ == data.additional_categories@,
        r.project_types@.len() == 0 && r.games@.len() == 0 && r.loaders@.len() == 0,
        r.versions@.len() == 0 && r.gallery@.len() == 0,
        match icon {
            Some((url, color)) => r.icon_url == Some(url) && r.color == color,
            None => r.icon_url is None && r.color is None,
        },
        r.monetization_status == MonetizationStatus::Monetized,
{
    let (icon_url, color) = match icon {
        Some((url, color)) => (Some(url), color),
        None => (None, None),
    };
    NewProject {
        id,
        slug: Some(data.slug),
        project_types: Vec::new(),
        games: Vec::new(),
        team_id,
        organization: data.organization_id,
        name: data.name,
        summary: data.summary,
        description: data.description,
        published: now,
        updated: now,
        approved: None,
        queued: None,
        status: ProjectStatus::Draft,
        requested_status: Some(data.requested_status),
        moderator_message: None,
        license_id: data.license_id,
        license_name: String::new(),
        license_url: data.license_url,
        downloads: 0,
        followers: 0,
        categories: data.categories,
        additional_categories: data.additional_categories,
        loaders: Vec::new(),
        versions: Vec::new(),
        icon_url,
        gallery: Vec::new(),
        color,
        thread_id,
        monetization_status: MonetizationStatus::Monetized,
    }
}

/// How a new project starts: a draft, asking for the status requested,
/// monetized.
pub fn initial_status(data: &ProjectCreateData) -> (r: (ProjectStatus, Option<ProjectStatus>, MonetizationStatus))
    ensures
        r == (ProjectStatus::Draft, Some(data.requested_status), MonetizationStatus::Monetized),
{
    (ProjectStatus::Draft, Some(data.requested_status), MonetizationStatus::Monetized)
}


/// The project id a new project's slug reads as in base62, if it reads as
/// one: a project with that id would collide with the slug.
pub fn slug_as_project_id(slug: &str) -> (r: Option<u64>)
    ensures
        r == match spec_parse_base62(slug@) { Ok(n) => Some(n), Err(_) => None::<u64> },
{
    match parse_base62(slug) {
        Ok(n) => Some(n),
        Err(_) => None,
    }
}

/// The refusal of a new project's slug that collides: a lookup that found a
/// project (a lookup with no answer counts as none found).
pub fn check_creation_slug(found: Option<bool>) -> (r: Result<(), CreateError>)
    ensures
        r is Ok <==> found != Some(true),
        r is Err ==> r matches Err(CreateError::SlugCollision),
{
    match found {
        Some(true) => Err(CreateError::SlugCollision),
        _ => Ok(()),
    }
}

/// The refusal of a category name that names no category.
pub fn check_category(name: &str, found: bool) -> (r: Result<(), CreateError>)
    ensures
        r is Ok <==> found,
        r is Err ==> (r matches Err(CreateError::InvalidCategory(m)) && m@ == name@),
{
    if found {
        Ok(())
    } else {
        Err(CreateError::InvalidCategory(name.to_owned()))
    }
}

/// The refusal of an image of a new project that does not exist.
pub fn project_image_missing(image_id: ImageId) -> (r: CreateError)
    ensures
        r matches CreateError::InvalidInput(m) && m@ == "Image "@ + spec_to_base62(image_id.0 as nat) + " does not exist"@,
{
    let mut m = "Image ".to_owned();
    m.append(to_base62(image_id.0).as_str());
    m.append(" does not exist");
    CreateError::InvalidInput(m)
}

} // verus!
