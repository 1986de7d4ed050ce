//! Tags (v2): the v3 tag lists in their v2 shapes.
use vstd::prelude::*;
use crate::routes::v2_reroute::{capitalize_first, spec_capitalize_first};
use crate::routes::v3::tags as v3_tags;
use crate::util::text::{clone_strings, str_eq};

verus! {

/// A category of projects (v2).
pub struct CategoryData {
    pub icon: String,
    pub name: String,
    pub project_type: String,
    pub header: String,
}

/// A v3 category in its v2 shape.
pub fn category_from_v3(c: v3_tags::CategoryData) -> (r: CategoryData)
    ensures
        r.icon == c.icon && r.name == c.name && r.project_type == c.project_type && r.header == c.header,
{
    CategoryData { icon: c.icon, name: c.name, project_type: c.project_type, header: c.header }
}

/// A mod loader (v2).
pub struct LoaderData {
    pub icon: String,
    pub name: String,
    pub supported_project_types: Vec<String>,
}

/// Whether a loader name is one the v2 routes list for modpacks.
pub open spec fn is_v2_modpack_loader(name: Seq<char>) -> bool {
    name == "forge"@ || name == "fabric"@ || name == "quilt"@ || name == "neoforge"@
}

/// The v2 project types of a loader: its v3 types, then `project`, then
/// `modpack` for forge, fabric, quilt and neoforge, then `mod` where it
/// supports datapacks or plugins.
pub open spec fn spec_v2_loader_types(name: Seq<char>, types: Seq<Seq<char>>) -> Seq<Seq<char>> {
    let with_project = types.push("project"@);
    let with_modpack = if is_v2_modpack_loader(name) { with_project.push("modpack"@) } else { with_project };
    if with_modpack.contains("datapack"@) || with_modpack.contains("plugin"@) {
        with_modpack.push("mod"@)
    } else {
        with_modpack
    }
}

/// The v2 project types of a loader keep its v3 types, in order, and add
/// `project`; forge, fabric, quilt and neoforge list `modpack`; a loader for
/// datapacks or plugins lists `mod`, and one without either does not gain it.
pub proof fn lemma_v2_loader_types(name: Seq<char>, types: Seq<Seq<char>>)
    ensures
        spec_v2_loader_types(name, types).take(types.len() as int) == types,
        spec_v2_loader_types(name, types).contains("project"@),
        is_v2_modpack_loader(name) ==> spec_v2_loader_types(name, types).contains("modpack"@),
        types.contains("plugin"@) || types.contains("datapack"@) ==> spec_v2_loader_types(name, types).contains("mod"@),
        !types.contains("plugin"@) && !types.contains("datapack"@) && !types.contains("mod"@)
            ==> !spec_v2_loader_types(name, types).contains("mod"@),
{
    reveal_strlit("project");
    reveal_strlit("modpack");
    reveal_strlit("mod");
    reveal_strlit("plugin");
    reveal_strlit("datapack");
    let p = types.push("project"@);
    let m = if is_v2_modpack_loader(name) { p.push("modpack"@) } else { p };
    let r = spec_v2_loader_types(name, types);
    assert(p[types.len() as int] == "project"@);
    assert(m.take(types.len() as int) =~= types);
    assert(m[types.len() as int] == "project"@);
    assert(r.take(types.len() as int) =~= types);
    assert(r[types.len() as int] == "project"@);
    if is_v2_modpack_loader(name) {
        assert(m[types.len() + 1int] == "modpack"@);
        assert(r[types.len() + 1int] == "modpack"@);
    }
    if types.contains("plugin"@) {
        let k = choose|k: int| 0 <= k < types.len() && types[k] == "plugin"@;
        assert(m[k] == "plugin"@);
        assert(r[r.len() - 1] == "mod"@);
    }
    if types.contains("datapack"@) {
        let k = choose|k: int| 0 <= k < types.len() && types[k] == "datapack"@;
        assert(m[k] == "datapack"@);
        assert(r[r.len() - 1] == "mod"@);
    }
    if !types.contains("plugin"@) && !types.contains("datapack"@) && !types.contains("mod"@) {
        assert(!m.contains("plugin"@) && !m.contains("datapack"@)) by {
            if m.contains("plugin"@) {
                let k = choose|k: int| 0 <= k < m.len() && m[k] == "plugin"@;
                if k < types.len() { assert(types[k] == "plugin"@); }
            }
            if m.contains("datapack"@) {
                let k = choose|k: int| 0 <= k < m.len() && m[k] == "datapack"@;
                if k < types.len() { assert(types[k] == "datapack"@); }
            }
        }
        assert(r == m);
        if m.contains("mod"@) {
            let k = choose|k: int| 0 <= k < m.len() && m[k] == "mod"@;
            if k < types.len() { assert(types[k] == "mod"@); }
        }
    }
}

fn contains_str(v: &Vec<String>, s: &str) -> (r: bool)
    ensures
        r == v.deep_view().contains(s@),
{
    let mut i: usize = 0;
    while i < v.len()
        invariant
            i <= v@.len(),
            forall|j: int| 0 <= j < i ==> v.deep_view()[j] != s@,
        decreases v@.len() - i,
    {
        if str_eq(v[i].as_str(), s) {
            assert(v.deep_view()[i as int] == s@);
            return true;
        }
        i = i + 1;
    }
    false
}

/// A v3 loader in its v2 shape.
pub fn loader_from_v3(l: &v3_tags::LoaderData) -> (r: LoaderData)
    ensures
        r.icon == l.icon,
        r.name == l.name,
        r.supported_project_types.deep_view() == spec_v2_loader_types(l.name@, l.supported_project_types.deep_view()),
        l.supported_project_types.deep_view().contains("plugin"@) || l.supported_project_types.deep_view().contains("datapack"@)
            ==> r.supported_project_types.deep_view().contains("mod"@),
{
    let mut types = clone_strings(&l.supported_project_types);
    let ghost t0 = types.deep_view();
    types.push("project".to_owned());
    assert(types.deep_view() =~= t0.push("project"@));
    let name = l.name.as_str();
    if str_eq(name, "forge") || str_eq(name, "fabric") || str_eq(name, "quilt") || str_eq(name, "neoforge") {
        let ghost t1 = types.deep_view();
        types.push("modpack".to_owned());
        assert(types.deep_view() =~= t1.push("modpack"@));
    }
    if contains_str(&types, "datapack") || contains_str(&types, "plugin") {
        let ghost t2 = types.deep_view();
        types.push("mod".to_owned());
        assert(types.deep_view() =~= t2.push("mod"@));
    }
    proof {
        lemma_v2_loader_types(l.name@, l.supported_project_types.deep_view());
    }
    LoaderData { icon: l.icon.clone(), name: l.name.clone(), supported_project_types: types }
}

/// The loaders that v2 lists: all but `mrpack`.
pub open spec fn v2_listed_loaders(loaders: Seq<v3_tags::LoaderData>) -> Seq<v3_tags::LoaderData> {
    loaders.filter(|l: v3_tags::LoaderData| l.name@ != "mrpack"@)
}

/// The link platforms that take donations.
pub open spec fn donation_link_platforms(p: Seq<v3_tags::LinkPlatformQueryData>) -> Seq<v3_tags::LinkPlatformQueryData> {
    p.filter(|p: v3_tags::LinkPlatformQueryData| p.donation)
}

/// The v3 loaders in their v2 shape, without the `mrpack` loader.
pub fn loaders_from_v3(loaders: &Vec<v3_tags::LoaderData>) -> (r: Vec<LoaderData>)
    ensures
        r@.len() == v2_listed_loaders(loaders@).len(),
        forall|k: int| 0 <= k < r@.len() ==> {
            let l = #[trigger] v2_listed_loaders(loaders@)[k];
            r@[k].name == l.name && r@[k].icon == l.icon
                && r@[k].supported_project_types.deep_view() == spec_v2_loader_types(l.name@, l.supported_project_types.deep_view())
        },
{
    let mut out: Vec<LoaderData> = Vec::new();
    let mut i: usize = 0;
    while i < loaders.len()
        invariant
            i <= loaders@.len(),
            out@.len() == v2_listed_loaders(loaders@.take(i as int)).len(),
            forall|k: int| 0 <= k < out@.len() ==> {
                let l = #[trigger] v2_listed_loaders(loaders@.take(i as int))[k];
                out@[k].name == l.name && out@[k].icon == l.icon
                    && out@[k].supported_project_types.deep_view() == spec_v2_loader_types(l.name@, l.supported_project_types.deep_view())
            },
        decreases loaders@.len() - i,
    {
        let l = &loaders[i];
        proof {
            reveal(Seq::filter);
            assert(loaders@.take(i + 1).drop_last() == loaders@.take(i as int));
            assert(loaders@.take(i + 1).last() == loaders@[i as int]);
        }
        if !str_eq(l.name.as_str(), "mrpack") {
            out.push(loader_from_v3(l));
        }
        i = i + 1;
    }
    assert(loaders@.take(loaders@.len() as int) == loaders@);
    out
}

/// A license (v2).
pub struct License {
    pub short: String,
    pub name: String,
}

/// A license's title and text (v2).
pub struct LicenseText {
    pub title: String,
    pub body: String,
}

/// A donation platform (v2): its id and display name.
pub struct DonationPlatformQueryData {
    pub short: String,
    pub name: String,
}

/// The v2 display name of a donation platform: the known platforms have
/// their names, any other its id with the first letter capitalised.
pub open spec fn spec_donation_platform_name(id: Seq<char>) -> Seq<char> {
    if id == "bmac"@ {
        "Buy Me A Coffee"@
    } else if id == "github"@ {
        "GitHub Sponsors"@
    } else if id == "ko-fi"@ {
        "Ko-fi"@
    } else if id == "paypal"@ {
        "PayPal"@
    } else {
        spec_capitalize_first(id)
    }
}

/// The display name of a donation platform.
pub fn donation_platform_name(id: &str) -> (r: String)
    ensures
        r@ == spec_donation_platform_name(id@),
{
    if str_eq(id, "bmac") {
        "Buy Me A Coffee".to_owned()
    } else if str_eq(id, "github") {
        "GitHub Sponsors".to_owned()
    } else if str_eq(id, "ko-fi") {
        "Ko-fi".to_owned()
    } else if str_eq(id, "paypal") {
        "PayPal".to_owned()
    } else {
        capitalize_first(id)
    }
}

/// The donation platforms among the link platforms, in their v2 shape.
pub fn donation_platforms_from_v3(platforms: &Vec<v3_tags::LinkPlatformQueryData>) -> (r: Vec<DonationPlatformQueryData>)
    ensures
        r@.len() == donation_link_platforms(platforms@).len(),
        forall|k: int| 0 <= k < r@.len() ==> {
            let p = #[trigger] donation_link_platforms(platforms@)[k];
            r@[k].short == p.name && r@[k].name@ == spec_donation_platform_name(p.name@)
        },
{
    let mut out: Vec<DonationPlatformQueryData> = Vec::new();
    let mut i: usize = 0;
    while i < platforms.len()
        invariant
            i <= platforms@.len(),
            out@.len() == donation_link_platforms(platforms@.take(i as int)).len(),
            forall|k: int| 0 <= k < out@.len() ==> {
                let p = #[trigger] donation_link_platforms(platforms@.take(i as int))[k];
                out@[k].short == p.name && out@[k].name@ == spec_donation_platform_name(p.name@)
            },
        decreases platforms@.len() - i,
    {
        let p = &platforms[i];
        proof {
            reveal(Seq::filter);
            assert(platforms@.take(i + 1).drop_last() == platforms@.take(i as int));
            assert(platforms@.take(i + 1).last() == platforms@[i as int]);
        }
        if p.donation {
            out.push(DonationPlatformQueryData { name: donation_platform_name(p.name.as_str()), short: p.name.clone() });
        }
        i = i + 1;
    }
    assert(platforms@.take(platforms@.len() as int) == platforms@);
    out
}

/// The query of the v2 game version list.
pub struct GameVersionQuery {
    pub type_: Option<String>,
    pub major: Option<bool>,
}


/// A filter of the v2 game version list on the versions' metadata.
#[derive(Debug)]
pub enum MetadataFilter {
    /// The metadata's `type` is this text.
    Type(String),
    /// The metadata's `major` is this flag.
    Major(bool),
}

/// The metadata filters a v2 game version query asks for: the type where
/// given, then whether major where given.
pub fn game_version_filters(query: &GameVersionQuery) -> (r: Vec<MetadataFilter>)
    ensures
        r@.len() == (if query.type_ is Some { 1nat } else { 0nat }) + (if query.major is Some { 1nat } else { 0nat }),
        query.type_ matches Some(t) ==> r@[0] matches MetadataFilter::Type(u) && u@ == t@,
        query.major matches Some(b) ==> r@.last() == MetadataFilter::Major(b),
{
    let mut r: Vec<MetadataFilter> = Vec::new();
    if let Some(t) = &query.type_ {
        r.push(MetadataFilter::Type(t.clone()));
    }
    if let Some(b) = query.major {
        r.push(MetadataFilter::Major(b));
    }
    r
}

/// A value of the v3 `game_versions` field, with what the v2 list reads of
/// its metadata (`type` where it is text, `major` where it is a flag); `D` is
/// the type of its date.
pub struct GameVersionValue<D> {
    pub value: String,
    pub created: D,
    pub metadata_type: Option<String>,
    pub metadata_major: Option<bool>,
}

/// A game version in the v2 list; `D` is the type of its date.
#[derive(Debug)]
pub struct GameVersionQueryData<D> {
    pub version: String,
    pub version_type: String,
    pub date: D,
    pub major: bool,
}

/// A game version in its v2 shape: the value as the version, the metadata's
/// type (empty where absent) and major flag (false where absent).
pub fn game_version_from_v3<D>(v: GameVersionValue<D>) -> (r: GameVersionQueryData<D>)
    ensures
        r.version@ == v.value@,
        r.version_type@ == match v.metadata_type { Some(t) => t@, None => Seq::<char>::empty() },
        r.date == v.created,
        r.major == match v.metadata_major { Some(b) => b, None => false },
{
    let version_type = match v.metadata_type {
        Some(t) => t,
        None => String::new(),
    };
    let major = match v.metadata_major {
        Some(b) => b,
        None => false,
    };
    GameVersionQueryData { version: v.value, version_type, date: v.created, major }
}

} // verus!
