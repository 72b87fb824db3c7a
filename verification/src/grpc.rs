//! Request and response message shapes for a transport collaborator.
//!
//! The registry itself exposes a language-level contract only; a thin
//! adapter outside this crate maps wire requests onto these shapes and the
//! registry's operations.

use vstd::prelude::*;

use crate::models::Resource;

verus! {

/// Request for getting a resource.
#[derive(Clone, Debug, PartialEq, Eq)]
pub struct GetResourceRequest {
    /// Resource ID, in text form.
    pub id: String,
}

/// Request for deleting a resource.
#[derive(Clone, Debug, PartialEq, Eq)]
pub struct DeleteResourceRequest {
    /// Resource ID, in text form.
    pub id: String,
}

/// Response for deleting a resource.
#[derive(Clone, Copy, Debug, PartialEq, Eq, Structural)]
pub struct DeleteResourceResponse {
    /// Whether the deletion succeeded.
    pub success: bool,
}

/// Request for listing resources.
#[derive(Clone, Debug, PartialEq, Eq)]
pub struct ListResourcesRequest {
    /// Page size.
    pub page_size: i32,
    /// Page token.
    pub page_token: String,
}

/// Response for listing resources.
#[derive(Clone, Debug, PartialEq, Eq)]
pub struct ListResourcesResponse {
    /// The resources of this page.
    pub resources: Vec<Resource>,
    /// Token of the next page; empty when this is the last page.
    pub next_page_token: String,
}

} // verus!
