//! Conversions between the v2 and v3 shapes of side types, search facets
//! and multipart bodies.
use vstd::prelude::*;
use vstd::utf8::{char_is_scalar, encode_scalar, encode_utf8};
use crate::models::v2::projects::LegacySideType;
use crate::routes::v3::project_creation::CreateError;
use crate::util::multipart::{generate_multipart_body, is_form_boundary, multipart_body, MultipartBuildSegment, MultipartBuildSegmentData};
use crate::util::text::{str_chars, str_eq, string_from_chars};

verus! {

/// The side-type fields of a v3 version: each is the boolean stored under the
/// key of the same name (`singleplayer`, `client_and_server`, `client_only`,
/// `server_only`), `None` where that key is missing or holds no boolean.
#[derive(Debug, Clone, Copy, PartialEq, Eq, Structural)]
pub struct SideTypeFields {
    pub singleplayer: Option<bool>,
    pub client_and_server: Option<bool>,
    pub client_only: Option<bool>,
    pub server_only: Option<bool>,
}

/// Whether a side type says the project runs on that side.
pub open spec fn side_present(t: LegacySideType) -> bool {
    t == LegacySideType::Required || t == LegacySideType::Optional
}

/// The v3 fields for a v2 pair of client and server side.
pub open spec fn spec_side_types_v3(client_side: LegacySideType, server_side: LegacySideType) -> SideTypeFields {
    let singleplayer = side_present(client_side) || side_present(server_side);
    SideTypeFields {
        singleplayer: Some(singleplayer),
        client_and_server: Some(singleplayer),
        client_only: Some(side_present(client_side) && server_side != LegacySideType::Required),
        server_only: Some(side_present(server_side) && client_side != LegacySideType::Required),
    }
}

/// Converts a "client_side" and "server_side" pair into the v3 fields.
pub fn convert_side_types_v3(client_side: LegacySideType, server_side: LegacySideType) -> (fields: SideTypeFields)
    ensures
        fields == spec_side_types_v3(client_side, server_side),
{
    let client_present = client_side == LegacySideType::Required || client_side == LegacySideType::Optional;
    let server_present = server_side == LegacySideType::Required || server_side == LegacySideType::Optional;
    let singleplayer = client_present || server_present;
    SideTypeFields {
        singleplayer: Some(singleplayer),
        client_and_server: Some(singleplayer),
        client_only: Some(client_present && server_side != LegacySideType::Required),
        server_only: Some(server_present && client_side != LegacySideType::Required),
    }
}

/// The v2 pair for the given flags and project type.
pub open spec fn spec_side_types_v2_bools(
    singleplayer: Option<bool>,
    client_only: bool,
    server_only: bool,
    client_and_server: Option<bool>,
    project_type: Option<Seq<char>>,
) -> (LegacySideType, LegacySideType) {
    if project_type == Some("plugin"@) {
        (LegacySideType::Unsupported, LegacySideType::Required)
    } else if project_type == Some("datapack"@) {
        (LegacySideType::Optional, LegacySideType::Required)
    } else if project_type == Some("shader"@) || project_type == Some("resourcepack"@) {
        (LegacySideType::Required, LegacySideType::Unsupported)
    } else {
        let sp = match singleplayer {
            Some(b) => b,
            None => match client_and_server {
                Some(b) => b,
                None => false,
            },
        };
        if client_only && server_only {
            (LegacySideType::Optional, LegacySideType::Optional)
        } else if client_only {
            (LegacySideType::Required, LegacySideType::Unsupported)
        } else if server_only {
            (LegacySideType::Unsupported, LegacySideType::Required)
        } else if sp {
            (LegacySideType::Required, LegacySideType::Required)
        } else {
            (LegacySideType::Unknown, LegacySideType::Unknown)
        }
    }
}

/// The text of an optional string slice.
pub open spec fn opt_view(s: Option<&str>) -> Option<Seq<char>> {
    match s {
        Some(x) => Some(x@),
        None => None,
    }
}

/// Client side, server side, from the v3 flags; some project types fix the pair.
pub fn convert_side_types_v2_bools(
    singleplayer: Option<bool>,
    client_only: bool,
    server_only: bool,
    client_and_server: Option<bool>,
    project_type: Option<&str>,
) -> (r: (LegacySideType, LegacySideType))
    ensures
        r == spec_side_types_v2_bools(singleplayer, client_only, server_only, client_and_server, opt_view(project_type)),
{
    if let Some(pt) = project_type {
        if str_eq(pt, "plugin") {
            return (LegacySideType::Unsupported, LegacySideType::Required);
        } else if str_eq(pt, "datapack") {
            return (LegacySideType::Optional, LegacySideType::Required);
        } else if str_eq(pt, "shader") {
            return (LegacySideType::Required, LegacySideType::Unsupported);
        } else if str_eq(pt, "resourcepack") {
            return (LegacySideType::Required, LegacySideType::Unsupported);
        }
    }
    let sp = match singleplayer {
        Some(b) => b,
        None => match client_and_server {
            Some(b) => b,
            None => false,
        },
    };
    match (sp, client_only, server_only) {
        (true, false, false) => (LegacySideType::Required, LegacySideType::Required),
        (false, true, false) => (LegacySideType::Required, LegacySideType::Unsupported),
        (true, true, false) => (LegacySideType::Required, LegacySideType::Unsupported),
        (false, false, true) => (LegacySideType::Unsupported, LegacySideType::Required),
        (true, false, true) => (LegacySideType::Unsupported, LegacySideType::Required),
        (true, true, true) => (LegacySideType::Optional, LegacySideType::Optional),
        (false, true, true) => (LegacySideType::Optional, LegacySideType::Optional),
        (false, false, false) => (LegacySideType::Unknown, LegacySideType::Unknown),
    }
}

/// The v2 pair that the v3 fields give: a missing `client_and_server`,
/// `client_only` or `server_only` counts as false, a missing `singleplayer`
/// as `client_and_server`.
pub open spec fn spec_side_types_v2(fields: SideTypeFields, project_type: Option<Seq<char>>) -> (LegacySideType, LegacySideType) {
    let cs = match fields.client_and_server { Some(b) => b, None => false };
    let sp = match fields.singleplayer { Some(b) => b, None => cs };
    let co = match fields.client_only { Some(b) => b, None => false };
    let so = match fields.server_only { Some(b) => b, None => false };
    spec_side_types_v2_bools(Some(sp), co, so, Some(cs), project_type)
}

/// Converts the v3 side-type fields back to a v2 pair (not lossless).
pub fn convert_side_types_v2(side_types: &SideTypeFields, project_type: Option<&str>) -> (r: (LegacySideType, LegacySideType))
    ensures
        r == spec_side_types_v2(*side_types, opt_view(project_type)),
{
    let client_and_server = match side_types.client_and_server { Some(b) => b, None => false };
    let singleplayer = match side_types.singleplayer { Some(b) => b, None => client_and_server };
    let client_only = match side_types.client_only { Some(b) => b, None => false };
    let server_only = match side_types.server_only { Some(b) => b, None => false };
    convert_side_types_v2_bools(Some(singleplayer), client_only, server_only, Some(client_and_server), project_type)
}

/// The pairs whose trip to v3 and back is exact: both sides unknown, or both
/// among required, optional and unsupported, but for the lossy pairs
/// (optional, unsupported), (unsupported, optional), (required, optional),
/// (optional, required) and (unsupported, unsupported).
pub open spec fn side_pair_roundtrips(c: LegacySideType, s: LegacySideType) -> bool {
    ||| c == LegacySideType::Required && s == LegacySideType::Required
    ||| c == LegacySideType::Required && s == LegacySideType::Unsupported
    ||| c == LegacySideType::Unsupported && s == LegacySideType::Required
    ||| c == LegacySideType::Optional && s == LegacySideType::Optional
    ||| c == LegacySideType::Unknown && s == LegacySideType::Unknown
}

/// Converting a v2 side pair to v3 and back, with no project type, gives the
/// pair back for every pair that is not lossy.
pub proof fn lemma_side_types_roundtrip(client_side: LegacySideType, server_side: LegacySideType)
    requires
        side_pair_roundtrips(client_side, server_side),
    ensures
        spec_side_types_v2(spec_side_types_v3(client_side, server_side), None) == (client_side, server_side),
{
}

/// The lossy pairs do not come back: each maps to another pair.
pub proof fn lemma_side_types_lossy(client_side: LegacySideType, server_side: LegacySideType)
    requires
        client_side != LegacySideType::Unknown,
        server_side != LegacySideType::Unknown,
        !side_pair_roundtrips(client_side, server_side),
    ensures
        spec_side_types_v2(spec_side_types_v3(client_side, server_side), None) != (client_side, server_side),
{
}

/// What one facet of a v2 group stands for in v3 search: `project_type:mod`
/// widens to plugins, datapacks or mods; any other facet stays.
pub open spec fn spec_facet_v3_alternatives(f: Seq<char>) -> Seq<Seq<char>> {
    if f == "project_type:mod"@ {
        seq!["project_type:plugin"@, "project_type:datapack"@, "project_type:mod"@]
    } else {
        seq![f]
    }
}

/// The facet group that stands for a v2 facet group in v3 search: each
/// `project_type:mod` in it is replaced, in place, by its alternatives.
pub open spec fn spec_facet_group_v3(group: Seq<Seq<char>>) -> Seq<Seq<char>>
    decreases group.len(),
{
    if group.len() == 0 {
        Seq::empty()
    } else {
        spec_facet_group_v3(group.drop_last()) + spec_facet_v3_alternatives(group.last())
    }
}

/// A group that holds the mod facet holds the plugin and datapack facets after
/// the conversion, and keeps every facet it had.
pub proof fn lemma_facet_group_v3_widens(group: Seq<Seq<char>>)
    ensures
        forall|f: Seq<char>| group.contains(f) ==> spec_facet_group_v3(group).contains(f),
        group.contains("project_type:mod"@) ==> spec_facet_group_v3(group).contains("project_type:plugin"@),
        group.contains("project_type:mod"@) ==> spec_facet_group_v3(group).contains("project_type:datapack"@),
        !group.contains("project_type:mod"@) ==> spec_facet_group_v3(group) == group,
    decreases group.len(),
{
    if group.len() > 0 {
        let init = group.drop_last();
        lemma_facet_group_v3_widens(init);
        let a = spec_facet_group_v3(init);
        let b = spec_facet_v3_alternatives(group.last());
        assert(spec_facet_group_v3(group) == a + b);
        assert forall|f: Seq<char>| group.contains(f) implies spec_facet_group_v3(group).contains(f) by {
            let k = choose|k: int| 0 <= k < group.len() && group[k] == f;
            if k < group.len() - 1 {
                assert(init[k] == f);
                assert(init.contains(f));
                let m = choose|m: int| 0 <= m < a.len() && a[m] == f;
                assert((a + b)[m] == f);
            } else {
                assert(b[b.len() - 1] == group.last());
                assert((a + b)[a.len() + b.len() - 1] == f);
            }
        }
        if group.contains("project_type:mod"@) {
            if init.contains("project_type:mod"@) {
                let m = choose|m: int| 0 <= m < a.len() && a[m] == "project_type:plugin"@;
                assert((a + b)[m] == "project_type:plugin"@);
                let n = choose|n: int| 0 <= n < a.len() && a[n] == "project_type:datapack"@;
                assert((a + b)[n] == "project_type:datapack"@);
            } else {
                let k = choose|k: int| 0 <= k < group.len() && group[k] == "project_type:mod"@;
                if k < group.len() - 1 {
                    assert(init[k] == "project_type:mod"@);
                    assert(false);
                }
                assert((a + b)[a.len() as int] == "project_type:plugin"@);
                assert((a + b)[a.len() + 1int] == "project_type:datapack"@);
            }
        } else {
            assert forall|k: int| 0 <= k < init.len() implies init[k] != "project_type:mod"@ by {
                assert(group[k] == init[k]);
            }
            assert(group.last() != "project_type:mod"@) by {
                assert(group[group.len() - 1] == group.last());
            }
            assert(a + b =~= group);
        }
    }
}

/// Converts plugin loaders from v2 to v3 for search facets: within every
/// group, each `project_type:mod` becomes plugin, datapack or mod.
pub fn convert_plugin_loader_facets_v3(facets: Vec<Vec<String>>) -> (r: Vec<Vec<String>>)
    ensures
        r.deep_view() == facets.deep_view().map_values(|g: Seq<Seq<char>>| spec_facet_group_v3(g)),
{
    let mut out: Vec<Vec<String>> = Vec::new();
    let mut i: usize = 0;
    while i < facets.len()
        invariant
            i <= facets@.len(),
            out.deep_view() == facets.deep_view().take(i as int).map_values(|g: Seq<Seq<char>>| spec_facet_group_v3(g)),
        decreases facets@.len() - i,
    {
        let group = &facets[i];
        let ghost prev = out.deep_view();
        let ghost g = facets.deep_view()[i as int];
        let mut next: Vec<String> = Vec::new();
        let mut j: usize = 0;
        while j < group.len()
            invariant
                j <= group@.len(),
                g == group.deep_view(),
                next.deep_view() == spec_facet_group_v3(g.take(j as int)),
            decreases group@.len() - j,
        {
            let ghost before = next.deep_view();
            if str_eq(group[j].as_str(), "project_type:mod") {
                next.push("project_type:plugin".to_owned());
                next.push("project_type:datapack".to_owned());
                next.push("project_type:mod".to_owned());
            } else {
                next.push(group[j].clone());
            }
            proof {
                let t = g.take(j + 1);
                assert(t.drop_last() =~= g.take(j as int));
                assert(t.last() == g[j as int]);
                assert(next.deep_view() =~= before + spec_facet_v3_alternatives(g[j as int]));
            }
            j = j + 1;
        }
        assert(g.take(group@.len() as int) =~= g);
        out.push(next);
        proof {
            assert(out.deep_view() =~= prev.push(spec_facet_group_v3(g)));
            assert(facets.deep_view().take(i + 1) == facets.deep_view().take(i as int).push(g));
            assert(out.deep_view() =~= facets.deep_view().take(i + 1).map_values(|g: Seq<Seq<char>>| spec_facet_group_v3(g)));
        }
        i = i + 1;
    }
    assert(facets.deep_view().take(facets@.len() as int) == facets.deep_view());
    out
}

/// The string with its first character upper-cased when that character is an
/// ASCII lower-case letter, and unchanged otherwise.
pub open spec fn spec_capitalize_first(s: Seq<char>) -> Seq<char> {
    if s.len() > 0 && 97 <= (s[0] as int) <= 122 {
        s.update(0, ((s[0] as int) - 32) as char)
    } else {
        s
    }
}

/// A byte upper-cased where it is an ASCII lower-case letter.
pub open spec fn ascii_upper_byte(b: u8) -> u8 {
    if 97 <= b <= 122 { (b - 32) as u8 } else { b }
}

proof fn lemma_encode_scalar_first_byte(c: char)
    ensures
        encode_scalar(c as u32).len() >= 1,
        (c as u32) <= 0x7f ==> encode_scalar(c as u32) == seq![(c as u32) as u8],
        (c as u32) <= 0x7f ==> ((c as u32) as u8) as int == c as int,
        (c as u32) > 0x7f ==> encode_scalar(c as u32)[0] >= 0xC0,
{
    char_is_scalar(c);
    let v = c as u32;
    assert(v <= 0x7f ==> (v & 0x7f) as u8 == v as u8 && (v as u8) as u32 == v) by (bit_vector);
    let x2 = ((v >> 6) & 0x1F) as u8;
    let x3 = ((v >> 12) & 0x0F) as u8;
    let x4 = ((v >> 18) & 0x7) as u8;
    assert((0xC0u8 | x2) >= 0xC0) by (bit_vector);
    assert((0xE0u8 | x3) >= 0xC0) by (bit_vector);
    assert((0xF0u8 | x4) >= 0xC0) by (bit_vector);
}

/// In bytes, the capitalised text keeps its length; where its first byte is
/// ASCII, that byte is upper-cased and the others stay; otherwise (an empty
/// text or a first character beyond ASCII) nothing changes.
pub proof fn lemma_capitalize_first_bytes(s: Seq<char>)
    ensures
        encode_utf8(spec_capitalize_first(s)).len() == encode_utf8(s).len(),
        encode_utf8(s).len() > 0 && encode_utf8(s)[0] < 128 ==> (
            encode_utf8(spec_capitalize_first(s))[0] == ascii_upper_byte(encode_utf8(s)[0])
            && encode_utf8(spec_capitalize_first(s)).skip(1) == encode_utf8(s).skip(1)),
        !(encode_utf8(s).len() > 0 && encode_utf8(s)[0] < 128) ==> encode_utf8(spec_capitalize_first(s)) == encode_utf8(s),
{
    if s.len() > 0 {
        let c = s[0];
        let rest = s.drop_first();
        let b = encode_utf8(s);
        assert(b == encode_scalar(c as u32) + encode_utf8(rest));
        lemma_encode_scalar_first_byte(c);
        if 97 <= (c as int) <= 122 {
            let u = ((c as int) - 32) as char;
            let t = spec_capitalize_first(s);
            assert(t == s.update(0, u));
            assert(t.drop_first() =~= rest);
            assert(t[0] == u);
            assert(u as u32 == (c as u32) - 32);
            lemma_encode_scalar_first_byte(u);
            assert(encode_utf8(t) == encode_scalar(u as u32) + encode_utf8(rest));
            assert(encode_utf8(t).skip(1) =~= encode_utf8(rest));
            assert(b.skip(1) =~= encode_utf8(rest));
        }
    }
}

/// Upper-cases the first character of `input` where it is an ASCII letter.
pub fn capitalize_first(input: &str) -> (r: String)
    ensures
        r@ == spec_capitalize_first(input@),
{
    let mut chars = str_chars(input);
    if chars.len() > 0 {
        let c = chars[0];
        if 'a' <= c && c <= 'z' {
            let upper = ((c as u32 - 32) as u8) as char;
            chars.set(0, upper);
        }
    }
    string_from_chars(chars.as_slice())
}


/// The content disposition of a part: its field name and its file name.
pub struct PartDisposition {
    pub name: String,
    pub filename: Option<String>,
}

/// Whether a disposition is that of the part.
pub open spec fn disposition_of(d: PartDisposition, part: MultipartBuildSegment) -> bool {
    &&& d.name@ == part.name@
    &&& match (d.filename, part.filename) {
        (Some(a), Some(b)) => a@ == b@,
        (None, None) => true,
        _ => false,
    }
}

/// The content dispositions of the parts after the JSON one, in order: what
/// the rewrite of the JSON is told of the other parts.
pub fn part_dispositions(parts: &Vec<MultipartBuildSegment>) -> (r: Vec<PartDisposition>)
    ensures
        r@.len() == parts@.len(),
        forall|k: int| 0 <= k < parts@.len() ==> disposition_of(#[trigger] r@[k], parts@[k]),
{
    let mut r: Vec<PartDisposition> = Vec::new();
    let mut i: usize = 0;
    while i < parts.len()
        invariant
            i <= parts@.len(),
            r@.len() == i,
            forall|k: int| 0 <= k < i ==> disposition_of(#[trigger] r@[k], parts@[k]),
        decreases parts@.len() - i,
    {
        let filename = match &parts[i].filename {
            Some(f) => Some(f.clone()),
            None => None,
        };
        r.push(PartDisposition { name: parts[i].name.clone(), filename });
        i = i + 1;
    }
    r
}

/// A multipart body whose JSON part was rewritten: the JSON part first (its
/// name, file name and content type kept, the rewritten JSON as its data),
/// then the other parts in order, under a fresh boundary. A body that had no
/// part at all is refused.
pub fn rebuild_multipart(
    json_part: Option<MultipartBuildSegment>,
    json: Vec<u8>,
    others: Vec<MultipartBuildSegment>,
) -> (r: Result<(String, Vec<u8>), CreateError>)
    ensures
        json_part is None ==> (r matches Err(CreateError::InvalidInput(m)) && m@ == "No json segment found in multipart."@),
        json_part matches Some(p) ==> (r matches Ok((b, body)) && is_form_boundary(b@) && body@ == multipart_body(b@,
            seq![MultipartBuildSegment {
                name: p.name,
                filename: p.filename,
                content_type: p.content_type,
                data: MultipartBuildSegmentData::Binary(json),
            }] + others@)),
{
    let p = match json_part {
        None => return Err(CreateError::InvalidInput("No json segment found in multipart.".to_owned())),
        Some(p) => p,
    };
    let first = MultipartBuildSegment {
        name: p.name,
        filename: p.filename,
        content_type: p.content_type,
        data: MultipartBuildSegmentData::Binary(json),
    };
    let mut segments = others;
    let ghost rest = segments@;
    segments.insert(0, first);
    assert(segments@ =~= seq![first] + rest);
    Ok(generate_multipart_body(&segments))
}

} // verus!
