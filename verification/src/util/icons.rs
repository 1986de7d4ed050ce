//! Icon uploads: how large an icon may be, where it is stored, and where the
//! old one lies.
use vstd::prelude::*;
use crate::routes::ApiError;
use crate::util::hash::{sha1_hex, sha1_hexdigest};
use crate::util::split::{second_piece, split_second};

verus! {

broadcast use vstd::string::group_string_axioms;

/// What an icon belongs to.
#[derive(Debug, Clone, Copy, PartialEq, Eq, Structural)]
pub enum IconOwner {
    Collection,
    Organization,
    OAuthClient,
    Profile,
    Project,
    User,
}

/// The size limit of an icon, in bytes: 2 MiB for a user, 256 KiB otherwise.
pub open spec fn spec_icon_limit(owner: IconOwner) -> usize {
    match owner {
        IconOwner::User => 2097152,
        _ => 262144,
    }
}

/// The refusal of an icon above its size limit.
pub open spec fn spec_icon_too_large(owner: IconOwner) -> Seq<char> {
    match owner {
        IconOwner::User => "Icons must be smaller than 2MiB"@,
        _ => "Icons must be smaller than 256KiB"@,
    }
}

/// The size limit of an icon and the refusal of one above it.
pub fn icon_limit(owner: IconOwner) -> (r: (usize, &'static str))
    ensures
        r.0 == spec_icon_limit(owner),
        r.1@ == spec_icon_too_large(owner),
{
    match owner {
        IconOwner::User => (2097152, "Icons must be smaller than 2MiB"),
        _ => (262144, "Icons must be smaller than 256KiB"),
    }
}

/// The refusal of an icon whose extension is no image format (a project's
/// own icon is refused at creation, see the creation errors).
pub open spec fn spec_invalid_icon_text(owner: IconOwner, ext: Seq<char>) -> Seq<char> {
    match owner {
        IconOwner::Collection => "Invalid format for collection icon: "@ + ext,
        IconOwner::User => "Invalid format for user icon: "@ + ext,
        _ => "Invalid format for project icon: "@ + ext,
    }
}

/// The refusal of an icon whose extension is no image format.
pub fn invalid_icon_format(owner: IconOwner, ext: &str) -> (r: ApiError)
    ensures
        r matches ApiError::InvalidInput(m) && m@ == spec_invalid_icon_text(owner, ext@),
{
    let mut m = match owner {
        IconOwner::Collection => "Invalid format for collection icon: ".to_owned(),
        IconOwner::User => "Invalid format for user icon: ".to_owned(),
        _ => "Invalid format for project icon: ".to_owned(),
    };
    m.append(ext);
    ApiError::InvalidInput(m)
}

/// Where an icon is stored: below `user/` for a user, below `data/`
/// otherwise, in the folder of its owner's id and named by its hash.
pub fn icon_path(owner: IconOwner, owner_id: &str, hash: &str, ext: &str) -> (r: String)
    ensures
        r@ == (if owner == IconOwner::User { "user/"@ } else { "data/"@ }) + owner_id@ + "/"@ + hash@ + "."@ + ext@,
{
    let mut r = if owner == IconOwner::User { "user/".to_owned() } else { "data/".to_owned() };
    r.append(owner_id);
    r.append("/");
    r.append(hash);
    r.append(".");
    r.append(ext);
    r
}

/// Where an uploaded icon is stored: `icon_path` with the icon's SHA-1
/// digest as its hash.
pub fn stored_icon_path(owner: IconOwner, owner_id: &str, data: &[u8], ext: &str) -> (r: String)
    ensures
        r@ == (if owner == IconOwner::User { "user/"@ } else { "data/"@ }) + owner_id@ + "/"@ + sha1_hex(data@) + "."@ + ext@,
{
    let hash = sha1_hexdigest(data);
    icon_path(owner, owner_id, hash.as_str(), ext)
}

/// Where an uploaded image of a context is stored, named by its SHA-1 digest.
pub fn stored_image_path(data: &[u8], ext: &str) -> (r: String)
    ensures
        r@ == "data/cached_images/"@ + sha1_hex(data@) + "."@ + ext@,
{
    let hash = sha1_hexdigest(data);
    cached_image_path(hash.as_str(), ext)
}

/// Where an uploaded image of a context is stored.
pub fn cached_image_path(hash: &str, ext: &str) -> (r: String)
    ensures
        r@ == "data/cached_images/"@ + hash@ + "."@ + ext@,
{
    let mut r = "data/cached_images/".to_owned();
    r.append(hash);
    r.append(".");
    r.append(ext);
    r
}

/// The address a stored file is served from.
pub fn cdn_address(cdn_url: &str, file_name: &str) -> (r: String)
    ensures
        r@ == cdn_url@ + "/"@ + file_name@,
{
    let mut r = cdn_url.to_owned();
    r.append("/");
    r.append(file_name);
    r
}

/// The stored file of an old icon, to delete: the piece of its address after
/// the CDN's address (and before any repeat of it).
pub fn stored_icon_file(icon_url: &str, cdn_url: &str) -> (r: Option<String>)
    ensures
        match second_piece(icon_url@, cdn_url@ + "/"@) {
            None => r is None,
            Some(p) => r is Some && r->0@ == p,
        },
{
    let mut sep = cdn_url.to_owned();
    sep.append("/");
    proof {
        reveal_strlit("/");
    }
    split_second(icon_url, sep.as_str())
}

} // verus!
