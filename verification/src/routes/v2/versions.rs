//! Versions (v2): request bodies, and the v2 listing filters in their v3
//! shape.
use vstd::prelude::*;
use crate::models::projects::{Dependency, FileType, Loader, VersionStatus, VersionType};
use crate::routes::v3::versions as v3_versions;
use crate::util::json::{json_string_array, json_text_of_strings, parse_string_array, string_array_text};

verus! {

broadcast use vstd::string::group_string_axioms;

/// The filters of a version listing (v2): game versions and loaders are
/// JSON arrays of names in strings.
pub struct VersionListFilters {
    pub game_versions: Option<String>,
    pub loaders: Option<String>,
    pub featured: Option<bool>,
    pub version_type: Option<VersionType>,
    pub limit: Option<usize>,
    pub offset: Option<usize>,
}

/// The text of a list of strings.
pub open spec fn views(items: Seq<String>) -> Seq<Seq<char>> {
    items.map_values(|s: String| s@)
}

/// The loaders a v2 listing asks for: the names given, and modpacks besides;
/// none when the filter is absent or is no JSON list of names.
pub open spec fn spec_v2_loaders(loaders: Option<String>) -> Option<Seq<Seq<char>>> {
    match loaders {
        None => None,
        Some(t) => match json_string_array(t@) {
            Some(v) => Some(v.push("mrpack"@)),
            None => None,
        },
    }
}

/// The loaders a v2 listing asks for.
pub fn v2_loaders(filters: &VersionListFilters) -> (r: Option<Vec<String>>)
    ensures
        match r {
            Some(w) => spec_v2_loaders(filters.loaders) == Some(views(w@)),
            None => spec_v2_loaders(filters.loaders) is None,
        },
{
    match &filters.loaders {
        None => None,
        Some(t) => match parse_string_array(t.as_str()) {
            Some(mut v) => {
                let ghost before = v@;
                v.push("mrpack".to_owned());
                assert(views(v@) == views(before).push("mrpack"@));
                Some(v)
            },
            None => None,
        },
    }
}

/// The loader-field filter a v2 listing hands on: a JSON object whose
/// `game_versions` holds the game versions asked for and, when loaders are
/// asked for, whose `loaders` holds them; none when no game versions are
/// asked for or they are no JSON list of names.
pub open spec fn spec_v2_loader_fields(game_versions: Option<String>, loaders: Option<Seq<Seq<char>>>) -> Option<Seq<char>> {
    match game_versions {
        None => None,
        Some(t) => match json_string_array(t@) {
            None => None,
            Some(gv) => match json_text_of_strings(gv) {
                None => None,
                Some(gv_text) => match loaders {
                    None => Some("{\"game_versions\":"@ + gv_text + "}"@),
                    Some(l) => match json_text_of_strings(l) {
                        None => None,
                        Some(l_text) => Some("{\"game_versions\":"@ + gv_text + ",\"loaders\":"@ + l_text + "}"@),
                    },
                },
            },
        },
    }
}

/// The loader-field filter a v2 listing hands on.
pub fn v2_loader_fields(game_versions: &Option<String>, loaders: &Option<Vec<String>>) -> (r: Option<String>)
    ensures
        match r {
            Some(t) => spec_v2_loader_fields(*game_versions, match loaders { Some(l) => Some(views(l@)), None => None }) == Some(t@),
            None => spec_v2_loader_fields(*game_versions, match loaders { Some(l) => Some(views(l@)), None => None }) is None,
        },
{
    let t = match game_versions {
        None => return None,
        Some(t) => t,
    };
    let gv = match parse_string_array(t.as_str()) {
        None => return None,
        Some(gv) => gv,
    };
    let gv_text = match string_array_text(&gv) {
        None => return None,
        Some(x) => x,
    };
    assert(views(gv@) == gv@.map_values(|s: String| s@));
    let mut out = "{\"game_versions\":".to_owned();
    out.append(gv_text.as_str());
    match loaders {
        None => {},
        Some(l) => {
            let l_text = match string_array_text(l) {
                None => return None,
                Some(x) => x,
            };
            out.append(",\"loaders\":");
            out.append(l_text.as_str());
        },
    }
    out.append("}");
    Some(out)
}

/// The v2 listing filters in their v3 shape.
pub fn v3_filters(filters: VersionListFilters) -> (r: v3_versions::VersionListFilters)
    ensures
        match spec_v2_loader_fields(filters.game_versions, spec_v2_loaders(filters.loaders)) {
            None => r.loader_fields is None,
            Some(text) => r.loader_fields is Some && r.loader_fields->0@ == text,
        },
        match spec_v2_loaders(filters.loaders) {
            None => r.loaders is None,
            Some(l) => match json_text_of_strings(l) {
                None => r.loaders is None,
                Some(text) => r.loaders is Some && r.loaders->0@ == text,
            },
        },
        r.featured == filters.featured,
        r.version_type == filters.version_type,
        r.limit == filters.limit,
        r.offset == filters.offset,
{
    let loaders = v2_loaders(&filters);
    let loader_fields = v2_loader_fields(&filters.game_versions, &loaders);
    let loaders_text = match &loaders {
        None => None,
        Some(l) => string_array_text(l),
    };
    v3_versions::VersionListFilters {
        loaders: loaders_text,
        featured: filters.featured,
        version_type: filters.version_type,
        limit: filters.limit,
        offset: filters.offset,
        loader_fields,
    }
}

/// A list of version ids, as a JSON array in a string.
pub struct VersionIds {
    pub ids: String,
}

/// A change of the kind of one file of a version, found by its hash.
pub struct EditVersionFileType {
    pub algorithm: String,
    pub hash: String,
    pub file_type: Option<FileType>,
}

/// An edit of a version (v2): game versions and loaders are given directly.
pub struct EditVersion {
    pub name: Option<String>,
    pub version_number: Option<String>,
    pub changelog: Option<String>,
    pub version_type: Option<VersionType>,
    pub dependencies: Option<Vec<Dependency>>,
    pub game_versions: Option<Vec<String>>,
    pub loaders: Option<Vec<Loader>>,
    pub featured: Option<bool>,
    pub primary_file: Option<(String, String)>,
    pub downloads: Option<u32>,
    pub status: Option<VersionStatus>,
    pub file_types: Option<Vec<EditVersionFileType>>,
}

/// The names of loaders.
pub open spec fn loader_names(loaders: Seq<Loader>) -> Seq<Seq<char>> {
    loaders.map_values(|l: Loader| l.0@)
}

fn loader_name_list(loaders: &Vec<Loader>) -> (r: Vec<String>)
    ensures
        views(r@) == loader_names(loaders@),
{
    let mut r: Vec<String> = Vec::new();
    let mut i: usize = 0;
    while i < loaders.len()
        invariant
            i <= loaders@.len(),
            views(r@) == loader_names(loaders@.take(i as int)),
        decreases loaders@.len() - i,
    {
        r.push(loaders[i].0.clone());
        assert(loader_names(loaders@.take(i + 1)) == loader_names(loaders@.take(i as int)).push(loaders@[i as int].0@));
        i = i + 1;
    }
    assert(loaders@.take(loaders@.len() as int) == loaders@);
    r
}

fn file_types_into_v3(file_types: Vec<EditVersionFileType>) -> (r: Vec<v3_versions::EditVersionFileType>)
    ensures
        r@.len() == file_types@.len(),
        forall|k: int| 0 <= k < r@.len() ==> {
            &&& (#[trigger] r@[k]).algorithm == file_types@[k].algorithm
            &&& r@[k].hash == file_types@[k].hash
            &&& r@[k].file_type == file_types@[k].file_type
        },
{
    let mut rest = file_types;
    let mut rev: Vec<v3_versions::EditVersionFileType> = Vec::new();
    let ghost all = rest@;
    while rest.len() > 0
        invariant
            rest@ == all.take(rest@.len() as int),
            rev@.len() + rest@.len() == all.len(),
            forall|k: int| 0 <= k < rev@.len() ==> {
                let q = all[all.len() - 1 - k];
                &&& (#[trigger] rev@[k]).algorithm == q.algorithm
                &&& rev@[k].hash == q.hash
                &&& rev@[k].file_type == q.file_type
            },
        decreases rest@.len(),
    {
        let f = rest.pop().unwrap();
        rev.push(v3_versions::EditVersionFileType { algorithm: f.algorithm, hash: f.hash, file_type: f.file_type });
    }
    let mut r: Vec<v3_versions::EditVersionFileType> = Vec::new();
    while rev.len() > 0
        invariant
            r@.len() + rev@.len() == all.len(),
            forall|k: int| 0 <= k < rev@.len() ==> {
                let q = all[all.len() - 1 - k];
                &&& (#[trigger] rev@[k]).algorithm == q.algorithm
                &&& rev@[k].hash == q.hash
                &&& rev@[k].file_type == q.file_type
            },
            forall|k: int| 0 <= k < r@.len() ==> {
                &&& (#[trigger] r@[k]).algorithm == all[k].algorithm
                &&& r@[k].hash == all[k].hash
                &&& r@[k].file_type == all[k].file_type
            },
        decreases rev@.len(),
    {
        let f = rev.pop().unwrap();
        r.push(f);
    }
    r
}

/// The loader fields a v2 edit sets, as name and JSON text: the game
/// versions when given; and for a modpack (whose version already has the
/// `mrpack_loaders` field) the loaders when given. A list that cannot be
/// written as JSON is left out.
pub open spec fn spec_v2_edit_fields(game_versions: Option<Seq<Seq<char>>>, loaders: Option<Seq<Seq<char>>>, modpack: bool) -> Seq<(Seq<char>, Seq<char>)> {
    let with_games = match game_versions {
        Some(g) => match json_text_of_strings(g) {
            Some(t) => seq![("game_versions"@, t)],
            None => Seq::empty(),
        },
        None => Seq::empty(),
    };
    if modpack && loaders is Some {
        match json_text_of_strings(loaders->0) {
            Some(t) => with_games.push(("mrpack_loaders"@, t)),
            None => with_games,
        }
    } else {
        with_games
    }
}

/// The text of name and value pairs.
pub open spec fn field_views(fields: Seq<(String, String)>) -> Seq<(Seq<char>, Seq<char>)> {
    fields.map_values(|f: (String, String)| (f.0@, f.1@))
}

/// A v2 edit of a version in its v3 shape. `modpack` says whether the
/// version already has the `mrpack_loaders` field: then new loaders go into
/// that field instead of replacing the version's loaders.
pub fn v3_edit(edit: EditVersion, modpack: bool) -> (r: v3_versions::EditVersion)
    ensures
        r.name == edit.name,
        r.version_number == edit.version_number,
        r.changelog == edit.changelog,
        r.version_type == edit.version_type,
        r.dependencies == edit.dependencies,
        r.loaders == if modpack && edit.loaders is Some { None } else { edit.loaders },
        r.featured == edit.featured,
        r.primary_file == edit.primary_file,
        r.downloads == edit.downloads,
        r.status == edit.status,
        match edit.file_types {
            None => r.file_types is None,
            Some(f) => r.file_types matches Some(g) && g@.len() == f@.len() && forall|k: int| 0 <= k < f@.len() ==> {
                &&& (#[trigger] g@[k]).algorithm == f@[k].algorithm
                &&& g@[k].hash == f@[k].hash
                &&& g@[k].file_type == f@[k].file_type
            },
        },
        field_views(r.fields@) == spec_v2_edit_fields(
            match edit.game_versions { Some(g) => Some(views(g@)), None => None },
            match edit.loaders { Some(l) => Some(loader_names(l@)), None => None },
            modpack,
        ),
{
    let mut fields: Vec<(String, String)> = Vec::new();
    if let Some(g) = &edit.game_versions {
        if let Some(t) = string_array_text(g) {
            fields.push(("game_versions".to_owned(), t));
        }
    }
    let ghost games = field_views(fields@);
    let mut loaders = edit.loaders;
    if modpack && loaders.is_some() {
        let names = match &loaders {
            Some(l) => loader_name_list(l),
            None => Vec::new(),
        };
        if let Some(t) = string_array_text(&names) {
            fields.push(("mrpack_loaders".to_owned(), t));
        }
        loaders = None;
    }
    proof {
        reveal_strlit("game_versions");
        reveal_strlit("mrpack_loaders");
    }
    assert(field_views(fields@) =~= spec_v2_edit_fields(
        match edit.game_versions { Some(g) => Some(views(g@)), None => None },
        match edit.loaders { Some(l) => Some(loader_names(l@)), None => None },
        modpack,
    ));
    let file_types = match edit.file_types {
        Some(f) => Some(file_types_into_v3(f)),
        None => None,
    };
    v3_versions::EditVersion {
        name: edit.name,
        version_number: edit.version_number,
        changelog: edit.changelog,
        version_type: edit.version_type,
        dependencies: edit.dependencies,
        loaders,
        featured: edit.featured,
        primary_file: edit.primary_file,
        downloads: edit.downloads,
        status: edit.status,
        file_types,
        fields,
    }
}

} // verus!
