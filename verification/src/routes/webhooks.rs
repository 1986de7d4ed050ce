//! Discord webhooks that follow project updates: the request bodies.
use vstd::prelude::*;
use crate::models::ids::ProjectId;
use crate::models::projects::Loader;

verus! {

/// A webhook to tell of updates to some projects for some loaders.
pub struct WebhookData {
    pub webhook_url: String,
    pub projects: Vec<ProjectId>,
    pub loaders: Vec<Loader>,
}

/// A webhook to stop telling.
pub struct WebhookDeletionData {
    pub webhook_url: String,
}

} // verus!
