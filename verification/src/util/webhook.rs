//! The Discord message that announces a project sent to review.
use vstd::prelude::*;
use crate::models::ids::{spec_to_base62, to_base62, ProjectId};
use crate::util::text::{join_strings, spec_join, string_views};

verus! {

broadcast use vstd::string::group_string_axioms;

/// One named field of an embed.
pub struct DiscordEmbedField {
    pub name: &'static str,
    pub value: String,
    pub inline: bool,
}

/// The picture of an embed.
pub struct DiscordEmbedThumbnail {
    pub url: Option<String>,
}

/// The author line of an embed.
pub struct DiscordEmbedAuthor {
    pub name: String,
}

/// What the review announcement shows of a project.
pub struct ReviewedProject {
    pub id: ProjectId,
    pub project_type: String,
    pub client_side: String,
    pub server_side: String,
    pub categories: Vec<String>,
    pub slug: Option<String>,
}

/// The fields of the announcement, as name and value (all inline): id,
/// project type, client side and server side; then the categories joined by
/// `", "` when there are any; then the slug when there is one.
pub open spec fn spec_review_fields(p: ReviewedProject) -> Seq<(Seq<char>, Seq<char>)> {
    let base = seq![
        ("id"@, spec_to_base62(p.id.0 as nat)),
        ("project_type"@, p.project_type@),
        ("client_side"@, p.client_side@),
        ("server_side"@, p.server_side@),
    ];
    let with_categories = if p.categories@.len() > 0 {
        base.push(("categories"@, spec_join(string_views(p.categories@), ", "@)))
    } else {
        base
    };
    match p.slug {
        Some(s) => with_categories.push(("slug"@, s@)),
        None => with_categories,
    }
}

/// The name and value of each field.
pub open spec fn field_views(fields: Seq<DiscordEmbedField>) -> Seq<(Seq<char>, Seq<char>)> {
    fields.map_values(|f: DiscordEmbedField| (f.name@, f.value@))
}

fn field(name: &'static str, value: String) -> (r: DiscordEmbedField)
    ensures
        r.name@ == name@,
        r.value@ == value@,
        r.inline,
{
    DiscordEmbedField { name, value, inline: true }
}

/// The fields of the review announcement of a project.
pub fn review_fields(p: &ReviewedProject) -> (r: Vec<DiscordEmbedField>)
    ensures
        field_views(r@) == spec_review_fields(*p),
        forall|i: int| 0 <= i < r@.len() ==> (#[trigger] r@[i]).inline,
{
    let mut fields: Vec<DiscordEmbedField> = Vec::new();
    fields.push(field("id", to_base62(p.id.0)));
    fields.push(field("project_type", p.project_type.clone()));
    fields.push(field("client_side", p.client_side.clone()));
    fields.push(field("server_side", p.server_side.clone()));
    if p.categories.len() > 0 {
        fields.push(field("categories", join_strings(&p.categories, ", ")));
    }
    match &p.slug {
        Some(s) => fields.push(field("slug", s.clone())),
        None => {},
    }
    proof {
        reveal_strlit("id");
        reveal_strlit("project_type");
        reveal_strlit("client_side");
        reveal_strlit("server_side");
        reveal_strlit("categories");
        reveal_strlit("slug");
    }
    assert(field_views(fields@) =~= spec_review_fields(*p));
    fields
}

/// The link of the announcement: the site, the project type, and the slug or
/// else the id.
pub open spec fn spec_review_url(site_url: Seq<char>, p: ReviewedProject) -> Seq<char> {
    site_url + "/"@ + p.project_type@ + "/"@ + match p.slug {
        Some(s) => s@,
        None => spec_to_base62(p.id.0 as nat),
    }
}

/// The link of the review announcement of a project.
pub fn review_url(site_url: &str, p: &ReviewedProject) -> (r: String)
    ensures
        r@ == spec_review_url(site_url@, *p),
{
    let mut r = site_url.to_owned();
    r.append("/");
    r.append(p.project_type.as_str());
    r.append("/");
    match &p.slug {
        Some(s) => r.append(s.as_str()),
        None => r.append(to_base62(p.id.0).as_str()),
    }
    r
}

/// The colour of the review announcement.
pub fn review_color() -> (r: u32)
    ensures
        r == 0x1bd96a,
{
    0x1bd96a
}

} // verus!
