//! Tags (v3): games, categories, loaders, licenses and link platforms.
use vstd::prelude::*;
use crate::routes::ApiError;
use crate::util::text::{clone_strings, lowercase, str_eq, string_views, to_lowercase};
use crate::util::text_sort::{arrange, in_text_order, is_text_arrangement, lemma_text_order_distinct, stable_text_order};

verus! {

/// A game.
pub struct GameData {
    pub slug: String,
    pub name: String,
    pub icon: Option<String>,
    pub banner: Option<String>,
}

/// A category of projects.
pub struct CategoryData {
    pub icon: String,
    pub name: String,
    pub project_type: String,
    pub header: String,
}

/// A mod loader (its free-form metadata is carried outside this crate).
pub struct LoaderData {
    pub icon: String,
    pub name: String,
    pub supported_project_types: Vec<String>,
    pub supported_games: Vec<String>,
    pub supported_fields: Vec<String>,
}

/// A license: its SPDX identifier and name.
pub struct License {
    pub short: String,
    pub name: String,
}

/// A license's title and text.
pub struct LicenseText {
    pub title: String,
    pub body: String,
}

/// A platform that projects link to, and whether it takes donations.
pub struct LinkPlatformQueryData {
    pub name: String,
    pub donation: bool,
}

/// The identifier of the license that reserves all rights.
pub const DEFAULT_LICENSE_ID: &'static str = "LicenseRef-All-Rights-Reserved";

/// The identifier and full name of the license at position `i` of SPDX's
/// license list, or `None` past its end.
pub uninterp spec fn spdx_listed_license(i: nat) -> Option<(Seq<char>, Seq<char>)>;

/// Reads one entry of SPDX's license list.
/// Trusted: reads `spdx::identifiers::LICENSES` at the position (identifier
/// and full name), `None` past the end; the list is fixed, so the entry is
/// named as a function of the position.
#[verifier::external_body]
fn spdx_license_entry(i: usize) -> (r: Option<(String, String)>)
    ensures
        match r {
            Some((short, name)) => spdx_listed_license(i as nat) == Some((short@, name@)),
            None => spdx_listed_license(i as nat) is None,
        },
{
    spdx::identifiers::LICENSES.get(i).map(|(short, name, _)| (short.to_string(), name.to_string()))
}

/// All SPDX licenses, in the order of the SPDX list: the entries before the
/// first position past the list's end.
pub fn license_list() -> (r: Vec<License>)
    ensures
        forall|j: int| 0 <= j < r@.len() ==> spdx_listed_license(j as nat)
            == Some(((#[trigger] r@[j]).short@, r@[j].name@)),
        r@.len() < usize::MAX ==> spdx_listed_license(r@.len()) is None,
{
    let mut results: Vec<License> = Vec::new();
    let mut i: usize = 0;
    while i < usize::MAX
        invariant
            results@.len() == i,
            forall|j: int| 0 <= j < i ==> spdx_listed_license(j as nat)
                == Some(((#[trigger] results@[j]).short@, results@[j].name@)),
        decreases usize::MAX - i,
    {
        match spdx_license_entry(i) {
            Some((short, name)) => {
                results.push(License { short, name });
            },
            None => {
                return results;
            },
        }
        i = i + 1;
    }
    results
}

/// What SPDX's list says of the license with this identifier: its full name,
/// its text, and whether the OSI approved it; `None` for an identifier the
/// list does not have.
pub uninterp spec fn spdx_license(id: Seq<char>) -> Option<(Seq<char>, Seq<char>, bool)>;

/// Looks up an SPDX license by identifier.
/// Trusted: calls `spdx::license_id` and, on a license, reads its
/// `full_name`, its `text()` and its `is_osi_approved()`; the list is fixed,
/// so the result is named as a function of the identifier.
#[verifier::external_body]
pub(crate) fn spdx_license_info(id: &str) -> (r: Option<(String, String, bool)>)
    ensures
        match r {
            Some((n, t, osi)) => spdx_license(id@) == Some((n@, t@, osi)),
            None => spdx_license(id@) is None,
        },
{
    match spdx::license_id(id) {
        Some(license) => Some((license.full_name.to_string(), license.text().to_string(), license.is_osi_approved())),
        None => None,
    }
}

/// The title and text of a license: the all-rights-reserved license has its
/// own; an SPDX identifier gives the license's full name and text; anything
/// else is refused.
pub fn license_text(license_id: String) -> (r: Result<LicenseText, ApiError>)
    ensures
        license_id@ == DEFAULT_LICENSE_ID@ ==> (r matches Ok(t)
            && t.title@ == "All Rights Reserved"@ && t.body@ == "All rights reserved unless explicitly stated."@),
        license_id@ != DEFAULT_LICENSE_ID@ ==> match spdx_license(license_id@) {
            Some((name, text, _)) => r matches Ok(t) && t.title@ == name && t.body@ == text,
            None => r matches Err(ApiError::InvalidInput(m)) && m@ == "Invalid SPDX identifier specified"@,
        },
{
    if str_eq(license_id.as_str(), DEFAULT_LICENSE_ID) {
        return Ok(LicenseText {
            title: "All Rights Reserved".to_owned(),
            body: "All rights reserved unless explicitly stated.".to_owned(),
        });
    }
    match spdx_license_info(license_id.as_str()) {
        Some((title, body, _)) => Ok(LicenseText { title, body }),
        None => Err(ApiError::InvalidInput("Invalid SPDX identifier specified".to_owned())),
    }
}


/// A loader as the database lists it.
pub struct LoaderRow {
    pub id: i32,
    pub icon: String,
    pub loader: String,
    pub supported_project_types: Vec<String>,
    pub supported_games: Vec<String>,
}

/// The fields of the loader with this id: those of its first entry in the
/// list of fields per loader, none without an entry.
pub open spec fn spec_loader_fields(fields: Seq<(i32, Vec<String>)>, id: i32) -> Seq<String>
    decreases fields.len(),
{
    if fields.len() == 0 {
        Seq::empty()
    } else if fields[0].0 == id {
        fields[0].1@
    } else {
        spec_loader_fields(fields.drop_first(), id)
    }
}

fn loader_fields_of(fields: &Vec<(i32, Vec<String>)>, id: i32) -> (r: Vec<String>)
    ensures
        r@ == spec_loader_fields(fields@, id),
{
    let mut i: usize = 0;
    assert(fields@.skip(0) == fields@);
    while i < fields.len()
        invariant
            i <= fields@.len(),
            spec_loader_fields(fields@, id) == spec_loader_fields(fields@.skip(i as int), id),
        decreases fields@.len() - i,
    {
        assert(fields@.skip(i as int).drop_first() == fields@.skip(i + 1));
        if fields[i].0 == id {
            return clone_strings(&fields[i].1);
        }
        i = i + 1;
    }
    Vec::new()
}

/// The key loaders are listed by: the name in lower case.
pub open spec fn loader_sort_keys(rows: Seq<LoaderRow>) -> Seq<Seq<char>> {
    rows.map_values(|r: LoaderRow| lowercase(r.loader@))
}

/// Whether a listed loader is the row with its fields.
pub open spec fn loader_data_of(d: LoaderData, row: LoaderRow, fields: Seq<(i32, Vec<String>)>) -> bool {
    &&& d.icon@ == row.icon@
    &&& d.name@ == row.loader@
    &&& d.supported_project_types@ == row.supported_project_types@
    &&& d.supported_games@ == row.supported_games@
    &&& d.supported_fields@ == spec_loader_fields(fields, row.id)
}

/// The loaders with their fields, listed by name in lower case (loaders whose
/// names are equal so keep the order of the rows).
pub fn loader_list(rows: Vec<LoaderRow>, fields: &Vec<(i32, Vec<String>)>) -> (r: Vec<LoaderData>)
    ensures
        exists|order: Seq<usize>| {
            &&& is_text_arrangement(loader_sort_keys(rows@), order)
            &&& in_text_order(loader_sort_keys(rows@), order)
            &&& r@.len() == order.len()
            &&& forall|j: int| 0 <= j < order.len() ==> loader_data_of(#[trigger] r@[j], rows@[order[j] as int], fields@)
        },
{
    let ghost keys_spec = loader_sort_keys(rows@);
    let mut keys: Vec<String> = Vec::new();
    let mut i: usize = 0;
    while i < rows.len()
        invariant
            i <= rows@.len(),
            keys_spec == loader_sort_keys(rows@),
            keys@.len() == i,
            forall|k: int| 0 <= k < i ==> #[trigger] keys@[k]@ == keys_spec[k],
        decreases rows@.len() - i,
    {
        keys.push(to_lowercase(rows[i].loader.as_str()));
        i = i + 1;
    }
    assert(string_views(keys@) =~= keys_spec);
    let order = stable_text_order(&keys);
    proof {
        lemma_text_order_distinct(keys_spec, order@);
        assert forall|j: int| 0 <= j < order@.len() implies order@[j] < rows@.len() by {
            assert(order@.contains(order@[j]));
        }
    }
    let ghost orig = rows@;
    let mut sorted = arrange(rows, &order);
    let ghost sorted_rows = sorted@;
    let mut out: Vec<LoaderData> = Vec::new();
    while sorted.len() > 0
        invariant
            sorted_rows.len() == order@.len(),
            out@.len() + sorted@.len() == sorted_rows.len(),
            sorted@ == sorted_rows.skip(out@.len() as int),
            forall|j: int| 0 <= j < out@.len() ==> loader_data_of(#[trigger] out@[j], sorted_rows[j], fields@),
        decreases sorted@.len(),
    {
        let row = sorted.remove(0);
        assert(row == sorted_rows[out@.len() as int]);
        let supported_fields = loader_fields_of(fields, row.id);
        out.push(LoaderData {
            icon: row.icon,
            name: row.loader,
            supported_project_types: row.supported_project_types,
            supported_games: row.supported_games,
            supported_fields,
        });
        assert(sorted@ =~= sorted_rows.skip(out@.len() as int));
    }
    assert(forall|j: int| 0 <= j < order@.len() ==> sorted_rows[j] == orig[order@[j] as int]);
    out
}

} // verus!
