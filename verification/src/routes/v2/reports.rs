//! Reports (v2): the request bodies, handed on to the v3 routes.
use vstd::prelude::*;
use crate::models::ids::ImageId;
use crate::models::reports::ItemType;
use crate::routes::v3::reports as v3_reports;

verus! {

/// The body that files a report (v2).
pub struct CreateReport {
    pub report_type: String,
    pub item_id: String,
    pub item_type: ItemType,
    pub body: String,
    /// Images uploaded for the report, to be attached to it.
    pub uploaded_images: Vec<ImageId>,
}

impl CreateReport {
    /// The same report in its v3 shape.
    pub fn into_v3(self) -> (r: v3_reports::CreateReport)
        ensures
            r.report_type == self.report_type,
            r.item_id == self.item_id,
            r.item_type == self.item_type,
            r.body == self.body,
            r.uploaded_images == self.uploaded_images,
    {
        v3_reports::CreateReport {
            report_type: self.report_type,
            item_id: self.item_id,
            item_type: self.item_type,
            body: self.body,
            uploaded_images: self.uploaded_images,
        }
    }
}

/// How many reports a listing shows and whether it shows every open report (v2).
pub struct ReportsRequestOptions {
    pub count: i16,
    pub all: bool,
}

/// The number of reports listed when the request names none.
pub fn default_count() -> (r: i16)
    ensures
        r == 100,
{
    100
}

/// Whether a listing shows every open report when the request does not say.
pub fn default_all() -> (r: bool)
    ensures
        r,
{
    true
}

impl ReportsRequestOptions {
    /// The same options in their v3 shape.
    pub fn into_v3(self) -> (r: v3_reports::ReportsRequestOptions)
        ensures
            r.count == self.count && r.all == self.all,
    {
        v3_reports::ReportsRequestOptions { count: self.count, all: self.all }
    }
}

/// A list of report ids, as a JSON array in a string.
pub struct ReportIds {
    pub ids: String,
}

/// An edit of a report (v2).
pub struct EditReport {
    pub body: Option<String>,
    pub closed: Option<bool>,
}

impl EditReport {
    /// The same edit in its v3 shape.
    pub fn into_v3(self) -> (r: v3_reports::EditReport)
        ensures
            r.body == self.body && r.closed == self.closed,
    {
        v3_reports::EditReport { body: self.body, closed: self.closed }
    }
}

} // verus!
