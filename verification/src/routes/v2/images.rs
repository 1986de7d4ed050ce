//! Images (v2): the request bodies of an upload and of an edit.
use vstd::prelude::*;
use crate::models::ids::UserId;
use crate::routes::ApiError;
use crate::util::text::str_eq;

verus! {

broadcast use vstd::string::group_string_axioms;

/// An image upload: its file extension and the context it is for
/// (`project`, `version`, `thread_message` or `report`).
pub struct ImageUpload {
    pub ext: String,
    pub context: String,
}

/// What an image is attached to; one of the four is to be given.
pub struct ImageEdit {
    pub project_id: Option<String>,
    pub version_id: Option<String>,
    pub thread_message_id: Option<String>,
    pub report_id: Option<String>,
}

/// The size limit of an uploaded image (1 MiB) and the refusal of a larger one.
pub fn image_upload_limit() -> (r: (usize, &'static str))
    ensures
        r.0 == 1048576,
        r.1@ == "Icons must be smaller than 1MiB"@,
{
    (1048576, "Icons must be smaller than 1MiB")
}

/// The refusals of an image upload: a file that is no image, a context that
/// does not exist.
pub fn not_an_image() -> (r: ApiError)
    ensures
        r matches ApiError::InvalidInput(m) && m@ == "The specified file is not an image!"@,
{
    ApiError::InvalidInput("The specified file is not an image!".to_owned())
}

/// The refusal of an upload for a context that does not exist.
pub fn unknown_image_context() -> (r: ApiError)
    ensures
        r matches ApiError::InvalidInput(m) && m@ == "Context must be one of: project, version, thread_message, report"@,
{
    ApiError::InvalidInput("Context must be one of: project, version, thread_message, report".to_owned())
}

/// What an image is attached to, by kind.
pub struct ImageContextIds {
    pub project_id: Option<u64>,
    pub version_id: Option<u64>,
    pub thread_message_id: Option<u64>,
    pub report_id: Option<u64>,
}

/// What an image of the named context is attached to: the id goes to the
/// field of its context, and the others stay empty.
pub fn context_ids(context: &str, context_id: Option<u64>) -> (r: ImageContextIds)
    ensures
        r.project_id == if context@ == "project"@ { context_id } else { None },
        r.version_id == if context@ == "version"@ { context_id } else { None },
        r.thread_message_id == if context@ == "thread_message"@ { context_id } else { None },
        r.report_id == if context@ == "report"@ { context_id } else { None },
{
    ImageContextIds {
        project_id: if str_eq(context, "project") { context_id } else { None },
        version_id: if str_eq(context, "version") { context_id } else { None },
        thread_message_id: if str_eq(context, "thread_message") { context_id } else { None },
        report_id: if str_eq(context, "report") { context_id } else { None },
    }
}

/// The kind of item an edit attaches an image to.
#[derive(Debug, Clone, Copy, PartialEq, Eq, Structural)]
pub enum ImageTarget {
    Project,
    Version,
    ThreadMessage,
    Report,
}

/// The item an edit attaches the image to: of those given, the one looked up
/// last (report, then thread message, then version, then project), as it
/// decides the outcome.
pub fn image_edit_target(edit: &ImageEdit) -> (r: Option<(ImageTarget, String)>)
    ensures
        match edit.report_id { Some(x) => r matches Some((t, s)) && t == ImageTarget::Report && s@ == x@,
        None => match edit.thread_message_id { Some(x) => r matches Some((t, s)) && t == ImageTarget::ThreadMessage && s@ == x@,
        None => match edit.version_id { Some(x) => r matches Some((t, s)) && t == ImageTarget::Version && s@ == x@,
        None => match edit.project_id { Some(x) => r matches Some((t, s)) && t == ImageTarget::Project && s@ == x@,
        None => r is None }}}},
{
    if let Some(x) = &edit.report_id {
        return Some((ImageTarget::Report, x.clone()));
    }
    if let Some(x) = &edit.thread_message_id {
        return Some((ImageTarget::ThreadMessage, x.clone()));
    }
    if let Some(x) = &edit.version_id {
        return Some((ImageTarget::Version, x.clone()));
    }
    if let Some(x) = &edit.project_id {
        return Some((ImageTarget::Project, x.clone()));
    }
    None
}

/// Whether an edit attaches the image: only its owner may (others are told
/// it does not exist), and the item named must have been found.
pub fn check_image_edit(owner: UserId, user: UserId, found: Option<u64>) -> (r: Result<u64, ApiError>)
    ensures
        owner != user ==> r == Err::<u64, ApiError>(ApiError::NotFound),
        owner == user ==> match found {
            Some(id) => r == Ok::<u64, ApiError>(id),
            None => r matches Err(ApiError::InvalidInput(m)) && m@
                == "One of 'project_id', 'version_id', 'thread_message_id', or 'report_id' must be specified!"@,
        },
{
    if owner.0 != user.0 {
        return Err(ApiError::NotFound);
    }
    match found {
        Some(id) => Ok(id),
        None => Err(ApiError::InvalidInput(
            "One of 'project_id', 'version_id', 'thread_message_id', or 'report_id' must be specified!".to_owned(),
        )),
    }
}


/// The refusal of an image whose context names no scope of the site.
pub fn invalid_image_context(context: &str) -> (r: ApiError)
    ensures
        r matches ApiError::InvalidInput(m) && m@ == "Invalid image context: "@ + context@,
{
    let mut m = "Invalid image context: ".to_owned();
    m.append(context);
    ApiError::InvalidInput(m)
}

} // verus!
