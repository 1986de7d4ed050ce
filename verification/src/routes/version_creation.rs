//! Legacy version creation: the description that comes with the files.
use vstd::prelude::*;
use crate::models::ids::{spec_to_base62, to_base62, VersionId};
use crate::models::mods::{GameVersion, ModId, ModLoader, VersionType};
use crate::routes::v3::project_creation::CreateError;
use crate::util::text::{signed_decimal_string, spec_signed_decimal, str_chars, str_eq, string_from_chars};

verus! {

broadcast use vstd::string::group_string_axioms;

/// The description of a new version, sent before its files.
pub struct InitialVersionData {
    pub mod_id: Option<ModId>,
    pub file_parts: Vec<String>,
    pub version_number: String,
    pub version_title: String,
    pub version_body: String,
    pub dependencies: Vec<VersionId>,
    pub game_versions: Vec<GameVersion>,
    pub release_channel: VersionType,
    pub loaders: Vec<ModLoader>,
}

/// Whether a version type is one that a new version can be given: release,
/// beta or alpha (the hidden types have no channel here).
pub open spec fn is_creatable_type(t: VersionType) -> bool {
    t is Release || t is Beta || t is Alpha
}

/// The stored release channel of a version type: release, beta and alpha
/// are 0, 2 and 4.
pub open spec fn spec_channel_id(t: VersionType) -> i32
    recommends
        is_creatable_type(t),
{
    match t {
        VersionType::Release => 0,
        VersionType::Beta => 2,
        _ => 4,
    }
}

/// The stored release channel of the version type of a new version.
pub fn channel_id(t: VersionType) -> (r: i32)
    requires
        is_creatable_type(t),
    ensures
        r == spec_channel_id(t),
{
    match t {
        VersionType::Release => 0,
        VersionType::Beta => 2,
        _ => 4,
    }
}

/// The extension of a file name: what follows its last dot, if it has one.
pub open spec fn spec_extension(name: Seq<char>) -> Option<Seq<char>> {
    if exists|i: int| 0 <= i < name.len() && #[trigger] name[i] == '.' {
        let i = choose|i: int| 0 <= i < name.len() && #[trigger] name[i] == '.' && forall|j: int| i < j < name.len() ==> name[j] != '.';
        Some(name.subrange(i + 1, name.len() as int))
    } else {
        None
    }
}

/// The extension of a file name.
pub fn file_extension(name: &str) -> (r: Option<String>)
    ensures
        match spec_extension(name@) {
            Some(e) => r matches Some(x) && x@ == e,
            None => r is None,
        },
{
    let chars = str_chars(name);
    let mut i: usize = chars.len();
    while i > 0
        invariant
            i <= chars@.len(),
            chars@ == name@,
            forall|j: int| i <= j < chars@.len() ==> chars@[j] != '.',
        decreases i,
    {
        if chars[i - 1] == '.' {
            proof {
                let d = (i - 1) as int;
                let c = choose|k: int| 0 <= k < name@.len() && #[trigger] name@[k] == '.' && forall|j: int| k < j < name@.len() ==> name@[j] != '.';
                assert(name@[d] == '.');
                if c < d {
                    assert(name@[d] != '.');
                } else if c > d {
                    assert(chars@[c] != '.');
                }
            }
            let piece = vstd::slice::slice_subrange(chars.as_slice(), i, chars.len());
            return Some(string_from_chars(piece));
        }
        i = i - 1;
    }
    assert(!exists|k: int| 0 <= k < name@.len() && #[trigger] name@[k] == '.');
    None
}

/// What to do with one part of a legacy version upload.
#[derive(Debug, Clone, Copy, PartialEq, Eq, Structural)]
pub enum LegacyPartAction {
    /// Read the version's description.
    ReadData,
    /// Upload the part as a file of the version.
    UploadJar,
    /// Drop the part.
    Skip,
}

/// The decision on one part of a legacy version upload, named `name` and
/// holding the file `file_name` (each if given): the `data` part is read; a
/// file needs a name with an extension; a `jar` file is uploaded once the
/// description came; other files are dropped.
pub fn legacy_part(name: Option<&str>, file_name: Option<&str>, data_seen: bool) -> (r: Result<LegacyPartAction, CreateError>)
    ensures
        name is None ==> (r matches Err(CreateError::MissingValueError(m)) && m@ == "Missing content name"@),
        name matches Some(n) && n@ == "data"@ ==> r == Ok::<LegacyPartAction, CreateError>(LegacyPartAction::ReadData),
        name matches Some(n) && n@ != "data"@ ==> match file_name {
            None => r matches Err(CreateError::MissingValueError(m)) && m@ == "Missing content file name"@,
            Some(f) => match spec_extension(f@) {
                None => r matches Err(CreateError::MissingValueError(m)) && m@ == "Missing content file extension"@,
                Some(e) => if e == "jar"@ {
                    if data_seen {
                        r == Ok::<LegacyPartAction, CreateError>(LegacyPartAction::UploadJar)
                    } else {
                        r matches Err(CreateError::InvalidInput(m)) && m@ == "`data` field must come before file fields"@
                    }
                } else {
                    r == Ok::<LegacyPartAction, CreateError>(LegacyPartAction::Skip)
                },
            },
        },
{
    let n = match name {
        None => return Err(CreateError::MissingValueError("Missing content name".to_owned())),
        Some(n) => n,
    };
    if str_eq(n, "data") {
        return Ok(LegacyPartAction::ReadData);
    }
    let f = match file_name {
        None => return Err(CreateError::MissingValueError("Missing content file name".to_owned())),
        Some(f) => f,
    };
    let ext = match file_extension(f) {
        None => return Err(CreateError::MissingValueError("Missing content file extension".to_owned())),
        Some(e) => e,
    };
    if str_eq(ext.as_str(), "jar") {
        if !data_seen {
            return Err(CreateError::InvalidInput("`data` field must come before file fields".to_owned()));
        }
        return Ok(LegacyPartAction::UploadJar);
    }
    Ok(LegacyPartAction::Skip)
}

/// Where a legacy version's changelog is stored, and the address it is
/// served from.
pub struct ChangelogPlace {
    pub body_path: String,
    pub changelog_url: String,
}

/// The changelog path of a version: `data/{mod}/changelogs/{version}/body.md`
/// with both ids in base62; it is served below the CDN's address. A
/// description without a mod id is refused.
pub fn changelog_place(data: &InitialVersionData, version_id: VersionId, cdn_url: &str) -> (r: Result<ChangelogPlace, CreateError>)
    ensures
        data.mod_id is None ==> (r matches Err(CreateError::InvalidInput(m)) && m@ == "Mod id is required for version data"@),
        data.mod_id matches Some(mod_id) ==> (r matches Ok(p)
            && p.body_path@ == "data/"@ + spec_to_base62(mod_id.0 as nat) + "/changelogs/"@
                + spec_to_base62(version_id.0 as nat) + "/body.md"@
            && p.changelog_url@ == cdn_url@ + "/"@ + p.body_path@),
{
    let mod_id = match data.mod_id {
        None => return Err(CreateError::InvalidInput("Mod id is required for version data".to_owned())),
        Some(m) => m,
    };
    let mut body_path = "data/".to_owned();
    body_path.append(to_base62(mod_id.0).as_str());
    body_path.append("/changelogs/");
    body_path.append(to_base62(version_id.0).as_str());
    body_path.append("/body.md");
    let mut changelog_url = cdn_url.to_owned();
    changelog_url.append("/");
    changelog_url.append(body_path.as_str());
    Ok(ChangelogPlace { body_path, changelog_url })
}

/// Where an uploaded jar is stored: `{mod}/{version number}/{file name}`,
/// with the mod's stored (signed) id in decimal.
pub fn jar_path(stored_mod_id: i64, version_number: &str, file_name: &str) -> (r: String)
    ensures
        r@ == spec_signed_decimal(stored_mod_id as int) + "/"@ + version_number@ + "/"@ + file_name@,
{
    let mut r = signed_decimal_string(stored_mod_id);
    r.append("/");
    r.append(version_number);
    r.append("/");
    r.append(file_name);
    r
}

/// A legacy upload must have had its description.
pub fn check_data_given(data_seen: bool) -> (r: Result<(), CreateError>)
    ensures
        r is Ok <==> data_seen,
        r is Err ==> (r matches Err(CreateError::InvalidInput(m)) && m@ == "`data` field is required"@),
{
    if !data_seen {
        return Err(CreateError::InvalidInput("`data` field is required".to_owned()));
    }
    Ok(())
}


/// The refusal of a version of a mod that does not exist: a lookup that
/// found none refuses it (a lookup with no answer lets it through).
pub fn check_mod_exists(found: Option<bool>) -> (r: Result<(), CreateError>)
    ensures
        r is Ok <==> found != Some(false),
        r is Err ==> (r matches Err(CreateError::InvalidInput(m)) && m@ == "An invalid mod id was supplied"@),
{
    match found {
        Some(false) => Err(CreateError::InvalidInput("An invalid mod id was supplied".to_owned())),
        _ => Ok(()),
    }
}

} // verus!
