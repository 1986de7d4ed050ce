//! Minecraft profiles (v3): request bodies, who may join or download a
//! shared profile, and which files a download token opens.
use vstd::prelude::*;
use crate::models::ids::{UserId, VersionId};
use crate::routes::ApiError;
use crate::routes::v3::project_creation::CreateError;
use crate::routes::v3::oauth_clients::{is_ascii_alphanumeric, random_alphanumeric, SECRET_LENGTH};
use crate::util::hash::{sha1_hex, sha1_hexdigest};
use crate::util::split::{lemma_second_piece_after_prefix, occurs_at, second_piece, split_second};
use crate::util::text::{str_eq, string_views};

verus! {

broadcast use vstd::string::group_string_axioms;

/// A new profile: its name, loader and loader version, game version, and
/// the versions it holds (besides uploaded files).
pub struct ProfileCreateData {
    pub name: String,
    pub loader: String,
    pub loader_version: String,
    pub game_version: String,
    pub versions: Vec<VersionId>,
}

/// A list of profile ids, as a JSON array in a string.
pub struct MinecraftProfileIds {
    pub ids: String,
}

/// An edit of a profile.
pub struct EditMinecraftProfile {
    pub name: Option<String>,
    pub loader: Option<String>,
    pub loader_version: Option<String>,
    pub game_version: Option<String>,
    pub versions: Option<Vec<VersionId>>,
}

/// A game version the site knows: its id and its name.
pub struct GameVersionRow {
    pub id: i32,
    pub version: String,
}

/// The id of the first game version of the list with the given name.
pub open spec fn spec_game_version_id(list: Seq<GameVersionRow>, name: Seq<char>) -> Option<i32>
    decreases list.len(),
{
    if list.len() == 0 {
        None
    } else if list[0].version@ == name {
        Some(list[0].id)
    } else {
        spec_game_version_id(list.drop_first(), name)
    }
}

fn find_game_version(list: &[GameVersionRow], name: &str) -> (r: Option<i32>)
    ensures
        r == spec_game_version_id(list@, name@),
{
    let mut i: usize = 0;
    assert(list@.skip(0) == list@);
    while i < list.len()
        invariant
            i <= list@.len(),
            spec_game_version_id(list@, name@) == spec_game_version_id(list@.skip(i as int), name@),
        decreases list@.len() - i,
    {
        assert(list@.skip(i as int).drop_first() == list@.skip(i + 1));
        if str_eq(list[i].version.as_str(), name) {
            return Some(list[i].id);
        }
        i = i + 1;
    }
    None
}

/// The game version an edit of a profile names, or the refusal of a name
/// the site does not know.
pub fn profile_game_version(list: &[GameVersionRow], name: &str) -> (r: Result<i32, ApiError>)
    ensures
        match spec_game_version_id(list@, name@) {
            Some(id) => r == Ok::<i32, ApiError>(id),
            None => r matches Err(ApiError::InvalidInput(m)) && m@ == "Invalid Minecraft game version"@,
        },
{
    match find_game_version(list, name) {
        Some(id) => Ok(id),
        None => Err(ApiError::InvalidInput("Invalid Minecraft game version".to_owned())),
    }
}

/// The game version a new profile names, or the refusal of a name the site
/// does not know.
pub fn new_profile_game_version(list: &[GameVersionRow], name: &str) -> (r: Result<i32, CreateError>)
    ensures
        match spec_game_version_id(list@, name@) {
            Some(id) => r == Ok::<i32, CreateError>(id),
            None => r matches Err(CreateError::InvalidInput(m)) && m@ == "Invalid Minecraft game version"@,
        },
{
    match find_game_version(list, name) {
        Some(id) => Ok(id),
        None => Err(CreateError::InvalidInput("Invalid Minecraft game version".to_owned())),
    }
}

/// The loader an edit of a profile names, given what the loader's lookup
/// found: a loader that the site does not know is refused.
pub fn profile_loader(found: Option<i32>) -> (r: Result<i32, ApiError>)
    ensures
        match found {
            Some(id) => r == Ok::<i32, ApiError>(id),
            None => r matches Err(ApiError::InvalidInput(m)) && m@ == "Invalid loader"@,
        },
{
    match found {
        Some(id) => Ok(id),
        None => Err(ApiError::InvalidInput("Invalid loader".to_owned())),
    }
}

/// The loader a new profile names, given what the loader's lookup found: a
/// loader that the site does not know is refused.
pub fn new_profile_loader(found: Option<i32>) -> (r: Result<i32, CreateError>)
    ensures
        match found {
            Some(id) => r == Ok::<i32, CreateError>(id),
            None => r matches Err(CreateError::InvalidInput(m)) && m@ == "Invalid loader"@,
        },
{
    match found {
        Some(id) => Ok(id),
        None => Err(CreateError::InvalidInput("Invalid loader".to_owned())),
    }
}

/// Whether a user may join a profile through a share link: not its owner,
/// not already on it, and only while it has room.
pub fn check_share_accept(owner: UserId, user: UserId, users: &[UserId], maximum_users: i32) -> (r: Result<(), ApiError>)
    ensures
        r is Ok <==> (owner != user && !users@.contains(user) && maximum_users > users@.len() as i32),
        owner == user ==> (r matches Err(ApiError::InvalidInput(m)) && m@ == "You cannot accept your own share link"@),
        owner != user && users@.contains(user) ==> (r matches Err(ApiError::InvalidInput(m))
            && m@ == "You are already on this profile's team"@),
        owner != user && !users@.contains(user) && maximum_users <= users@.len() as i32 ==>
            (r matches Err(ApiError::InvalidInput(m)) && m@ == "This profile has too many users"@),
{
    if owner.0 == user.0 {
        return Err(ApiError::InvalidInput("You cannot accept your own share link".to_owned()));
    }
    let mut i: usize = 0;
    while i < users.len()
        invariant
            i <= users@.len(),
            owner != user,
            forall|k: int| 0 <= k < i ==> users@[k] != user,
        decreases users@.len() - i,
    {
        if users[i].0 == user.0 {
            assert(users@[i as int] == user);
            return Err(ApiError::InvalidInput("You are already on this profile's team".to_owned()));
        }
        i = i + 1;
    }
    if maximum_users <= #[verifier::truncate] (users.len() as i32) {
        return Err(ApiError::InvalidInput("This profile has too many users".to_owned()));
    }
    Ok(())
}

/// Whether a user may download a profile: only one on its team.
pub fn check_profile_download(user: UserId, users: &[UserId]) -> (r: Result<(), ApiError>)
    ensures
        r is Ok <==> users@.contains(user),
        r is Err ==> (r matches Err(ApiError::CustomAuthentication(m)) && m@ == "You are not on this profile's team"@),
{
    let mut i: usize = 0;
    while i < users.len()
        invariant
            i <= users@.len(),
            forall|k: int| 0 <= k < i ==> users@[k] != user,
        decreases users@.len() - i,
    {
        if users[i].0 == user.0 {
            assert(users@[i as int] == user);
            return Ok(());
        }
        i = i + 1;
    }
    Err(ApiError::CustomAuthentication("You are not on this profile's team".to_owned()))
}

/// What a download of a profile hands out: a token for the CDN, the versions
/// the profile holds, and for each uploaded file its address on the CDN and
/// where it is installed.
pub struct ProfileDownload {
    pub auth_token: String,
    pub version_ids: Vec<VersionId>,
    pub override_cdns: Vec<(String, String)>,
}

/// The address on the CDN of an uploaded profile file.
pub open spec fn spec_download_address(cdn_url: Seq<char>, hash: Seq<char>) -> Seq<char> {
    cdn_url + "/custom_files/"@ + hash
}

/// The address on the CDN of an uploaded profile file, named by its hash.
pub fn override_download_url(cdn_url: &str, hash: &str) -> (r: String)
    ensures
        r@ == spec_download_address(cdn_url@, hash@),
{
    let mut r = cdn_url.to_owned();
    r.append("/custom_files/");
    r.append(hash);
    r
}

/// The answer to a download: the token and the versions as given, and each
/// uploaded file (its hash and install path, in order) with its address.
pub fn profile_download_body(
    auth_token: String,
    version_ids: Vec<VersionId>,
    overrides: &[(String, String)],
    cdn_url: &str,
) -> (r: ProfileDownload)
    ensures
        r.auth_token@ == auth_token@,
        r.version_ids@ == version_ids@,
        r.override_cdns@.len() == overrides@.len(),
        forall|i: int| 0 <= i < overrides@.len() ==> {
            &&& (#[trigger] r.override_cdns@[i]).0@ == spec_download_address(cdn_url@, overrides@[i].0@)
            &&& r.override_cdns@[i].1@ == overrides@[i].1@
        },
{
    let mut cdns: Vec<(String, String)> = Vec::new();
    let mut i: usize = 0;
    while i < overrides.len()
        invariant
            i <= overrides@.len(),
            cdns@.len() == i,
            forall|k: int| 0 <= k < i ==> {
                &&& (#[trigger] cdns@[k]).0@ == spec_download_address(cdn_url@, overrides@[k].0@)
                &&& cdns@[k].1@ == overrides@[k].1@
            },
        decreases overrides@.len() - i,
    {
        let url = override_download_url(cdn_url, overrides[i].0.as_str());
        let path = overrides[i].1.clone();
        cdns.push((url, path));
        i = i + 1;
    }
    ProfileDownload { auth_token, version_ids, override_cdns: cdns }
}

/// What a download does with the user's token for the profile: hands out
/// the one it has while it lasts, replaces an expired one, or makes one.
#[derive(Debug, Clone, Copy, PartialEq, Eq, Structural)]
pub enum DownloadToken {
    Reuse,
    Replace,
    Create,
}

/// How long a new download token lasts, in seconds.
pub const DOWNLOAD_TOKEN_SECONDS: i64 = 300;

/// What a download does with the user's token for the profile, given when
/// that token expires, if there is one.
pub fn download_token_plan(existing_expires: Option<i64>, now: i64) -> (r: DownloadToken)
    ensures
        r == match existing_expires {
            None => DownloadToken::Create,
            Some(e) => if now < e { DownloadToken::Reuse } else { DownloadToken::Replace },
        },
{
    match existing_expires {
        None => DownloadToken::Create,
        Some(e) => if now < e { DownloadToken::Reuse } else { DownloadToken::Replace },
    }
}

/// A new download token: 32 random ASCII letters and digits.
pub fn new_download_token() -> (r: String)
    ensures
        r@.len() == SECRET_LENGTH,
        forall|i: int| 0 <= i < r@.len() ==> is_ascii_alphanumeric(#[trigger] r@[i]),
{
    random_alphanumeric(SECRET_LENGTH)
}

/// The length of a share link's identifier.
pub const SHARE_LINK_LENGTH: usize = 8;

/// How long a share link lasts, in seconds: a week.
pub const SHARE_LINK_SECONDS: i64 = 604800;

/// A new share link identifier: 8 random ASCII letters and digits.
pub fn new_share_link_identifier() -> (r: String)
    ensures
        r@.len() == SHARE_LINK_LENGTH,
        forall|i: int| 0 <= i < r@.len() ==> is_ascii_alphanumeric(#[trigger] r@[i]),
{
    random_alphanumeric(SHARE_LINK_LENGTH)
}

/// When a share link made now expires.
pub fn share_link_expiry(now: i64) -> (r: i64)
    requires
        now + SHARE_LINK_SECONDS <= i64::MAX,
    ensures
        r == now + SHARE_LINK_SECONDS,
{
    now + SHARE_LINK_SECONDS
}

/// Whether a user may share a profile or see its share links: only its
/// owner; anyone else is told it does not exist.
pub fn check_share_owner(owner: UserId, user: UserId) -> (r: Result<(), ApiError>)
    ensures
        r is Ok <==> owner == user,
        r is Err ==> r == Err::<(), ApiError>(ApiError::NotFound),
{
    if owner.0 == user.0 {
        Ok(())
    } else {
        Err(ApiError::NotFound)
    }
}

/// Whether a share link is accepted for the profile the request names: only
/// a link to that profile (any other is as if it did not exist).
pub fn check_link_profile(link_profile: u64, profile: u64) -> (r: Result<(), ApiError>)
    ensures
        r is Ok <==> link_profile == profile,
        r is Err ==> r == Err::<(), ApiError>(ApiError::NotFound),
{
    if link_profile == profile {
        Ok(())
    } else {
        Err(ApiError::NotFound)
    }
}

/// When a download token made now expires.
pub fn download_token_expiry(now: i64) -> (r: i64)
    requires
        now + DOWNLOAD_TOKEN_SECONDS <= i64::MAX,
    ensures
        r == now + DOWNLOAD_TOKEN_SECONDS,
{
    now + DOWNLOAD_TOKEN_SECONDS
}

/// The file a download token is checked for.
pub struct TokenUrl {
    pub url: String,
}

/// The uploaded file a download address names: the piece after the CDN's
/// `custom_files` folder.
pub fn custom_file_of_url(file_url: &str, cdn_url: &str) -> (r: Option<String>)
    ensures
        match second_piece(file_url@, cdn_url@ + "/custom_files/"@) {
            None => r is None,
            Some(p) => r is Some && r->0@ == p,
        },
{
    let mut sep = cdn_url.to_owned();
    sep.append("/custom_files/");
    proof {
        reveal_strlit("/custom_files/");
    }
    split_second(file_url, sep.as_str())
}

/// Whether a download token opens a file: it has not expired (`now` is
/// before `expires`), the address names a file in the CDN's `custom_files`
/// folder, and that file is one of the profile's uploaded files.
pub open spec fn spec_token_opens(expires: i64, now: i64, file_url: Seq<char>, cdn_url: Seq<char>, overrides: Seq<Seq<char>>) -> bool {
    &&& now < expires
    &&& second_piece(file_url, cdn_url + "/custom_files/"@) matches Some(p) && overrides.contains(p)
}

/// Whether a download token opens a file; the profile's uploaded files are
/// given by their names.
pub fn token_opens(expires: i64, now: i64, file_url: &str, cdn_url: &str, overrides: &Vec<String>) -> (r: bool)
    ensures
        r == spec_token_opens(expires, now, file_url@, cdn_url@, string_views(overrides@)),
{
    if expires <= now {
        return false;
    }
    let piece = match custom_file_of_url(file_url, cdn_url) {
        None => return false,
        Some(p) => p,
    };
    let ghost views = string_views(overrides@);
    let mut i: usize = 0;
    while i < overrides.len()
        invariant
            i <= overrides@.len(),
            views == string_views(overrides@),
            now < expires,
            second_piece(file_url@, cdn_url@ + "/custom_files/"@) == Some(piece@),
            forall|k: int| 0 <= k < i ==> views[k] != piece@,
        decreases overrides@.len() - i,
    {
        if crate::util::text::str_eq(overrides[i].as_str(), piece.as_str()) {
            assert(views[i as int] == piece@);
            assert(views.contains(piece@));
            return true;
        }
        i = i + 1;
    }
    false
}

/// The address a download hands out for one of the profile's uploaded files
/// is opened by the token, while it has not expired (for a file whose hash
/// does not itself hold the CDN's `custom_files` address).
pub proof fn lemma_download_address_opens(
    expires: i64,
    now: i64,
    cdn_url: Seq<char>,
    hash: Seq<char>,
    overrides: Seq<Seq<char>>,
)
    requires
        now < expires,
        overrides.contains(hash),
        forall|j: int| !#[trigger] occurs_at(hash, cdn_url + "/custom_files/"@, j),
    ensures
        spec_token_opens(expires, now, spec_download_address(cdn_url, hash), cdn_url, overrides),
{
    reveal_strlit("/custom_files/");
    let sep = cdn_url + "/custom_files/"@;
    assert(spec_download_address(cdn_url, hash) == sep + hash);
    lemma_second_piece_after_prefix(sep, hash);
}

/// The file extension of an uploaded icon.
pub struct Extension {
    pub ext: String,
}

/// Only the owner of a profile may edit it.
pub fn check_profile_owner(owner: UserId, user: UserId) -> (r: Result<(), ApiError>)
    ensures
        r is Ok <==> owner == user,
        r is Err ==> (r matches Err(ApiError::CustomAuthentication(m)) && m@ == "You are not the owner of this profile"@),
{
    if owner.0 != user.0 {
        return Err(ApiError::CustomAuthentication("You are not the owner of this profile".to_owned()));
    }
    Ok(())
}

/// Files may be added to a profile by its owner or a moderator.
pub fn check_override_permission(user_is_mod: bool, owner: UserId, user: UserId) -> (r: Result<(), CreateError>)
    ensures
        r is Ok <==> (user_is_mod || owner == user),
        r is Err ==> (r matches Err(CreateError::CustomAuthenticationError(m))
            && m@ == "You don't have permission to add overrides."@),
{
    if !user_is_mod && owner.0 != user.0 {
        return Err(CreateError::CustomAuthenticationError("You don't have permission to add overrides.".to_owned()));
    }
    Ok(())
}

/// The first part of an upload of profile files must be the `data` part:
/// `first` is `None` when there is no part, `Some(None)` for one without a name.
pub fn check_override_data_part(first: Option<Option<&str>>) -> (r: Result<(), CreateError>)
    ensures
        r is Ok <==> (first matches Some(Some(n)) && n@ == "data"@),
        first is None ==> (r matches Err(CreateError::InvalidInput(m)) && m@ == "Upload must have a data field"@),
        first == Some(None::<&str>) ==> (r matches Err(CreateError::InvalidInput(m)) && m@ == "Upload must have a name"@),
        first matches Some(Some(n)) && n@ != "data"@ ==> (r matches Err(CreateError::InvalidInput(m))
            && m@ == "`data` field must come before file fields"@),
{
    match first {
        None => Err(CreateError::InvalidInput("Upload must have a data field".to_owned())),
        Some(None) => Err(CreateError::InvalidInput("Upload must have a name".to_owned())),
        Some(Some(n)) => {
            if str_eq(n, "data") {
                Ok(())
            } else {
                Err(CreateError::InvalidInput("`data` field must come before file fields".to_owned()))
            }
        },
    }
}

/// A file the `data` part announces: its name in the upload and where it is
/// installed in the profile.
pub struct MultipartFile {
    pub file_name: String,
    pub install_path: String,
}

/// The install path of an uploaded part: that of the first announced file
/// with the part's name.
pub fn override_install_path(files: &Vec<MultipartFile>, name: Option<&str>) -> (r: Result<String, CreateError>)
    ensures
        name is None ==> (r matches Err(CreateError::InvalidInput(m)) && m@ == "Upload must have a name"@),
        name matches Some(n) ==> match r {
            Ok(p) => exists|i: int| 0 <= i < files@.len() && (#[trigger] files@[i]).file_name@ == n@
                && p@ == files@[i].install_path@ && forall|j: int| 0 <= j < i ==> files@[j].file_name@ != n@,
            Err(e) => (forall|i: int| 0 <= i < files@.len() ==> (#[trigger] files@[i]).file_name@ != n@)
                && (e matches CreateError::InvalidInput(m) && m@ == "No matching file name in `data` for file '"@ + n@ + "'"@),
        },
{
    let n = match name {
        None => return Err(CreateError::InvalidInput("Upload must have a name".to_owned())),
        Some(n) => n,
    };
    let mut i: usize = 0;
    while i < files.len()
        invariant
            i <= files@.len(),
            name == Some(n),
            forall|j: int| 0 <= j < i ==> (#[trigger] files@[j]).file_name@ != n@,
        decreases files@.len() - i,
    {
        if str_eq(files[i].file_name.as_str(), n) {
            assert(files@[i as int].file_name@ == n@);
            return Ok(files[i].install_path.clone());
        }
        i = i + 1;
    }
    let mut m = "No matching file name in `data` for file '".to_owned();
    m.append(n);
    m.append("'");
    Err(CreateError::InvalidInput(m))
}

/// The content type an uploaded part is stored with: its own, else a plain
/// byte stream.
pub fn override_content_type(content_type: Option<&str>) -> (r: String)
    ensures
        r@ == match content_type { Some(c) => c@, None => "application/octet-stream"@ },
{
    match content_type {
        Some(c) => c.to_owned(),
        None => "application/octet-stream".to_owned(),
    }
}

/// An uploaded profile file's hash (its SHA-1 digest, by which the profile
/// names it) and where it is stored.
pub fn stored_override(data: &[u8]) -> (r: (String, String))
    ensures
        r.0@ == sha1_hex(data@),
        r.1@ == "custom_files/"@ + sha1_hex(data@),
{
    let hash = sha1_hexdigest(data);
    let path = override_storage_path(hash.as_str());
    (hash, path)
}

/// Where an uploaded profile file is stored: under `custom_files`, by its hash.
pub fn override_storage_path(hash: &str) -> (r: String)
    ensures
        r@ == "custom_files/"@ + hash@,
{
    let mut r = "custom_files/".to_owned();
    r.append(hash);
    r
}


/// Whether a user may change or remove a profile's icon: a moderator, or its
/// owner.
pub fn check_profile_icon_edit(user_is_mod: bool, owner: UserId, user: UserId) -> (r: Result<(), ApiError>)
    ensures
        r is Ok <==> (user_is_mod || owner == user),
        r is Err ==> (r matches Err(ApiError::CustomAuthentication(m))
            && m@ == "You don't have permission to edit this profile's icon."@),
{
    if user_is_mod || owner.0 == user.0 {
        Ok(())
    } else {
        Err(ApiError::CustomAuthentication("You don't have permission to edit this profile's icon.".to_owned()))
    }
}

} // verus!
