//! Moderation console core for a package index: the pagination state
//! machine of the review loop, the submission model and its rendering,
//! and the request/response contract with the remote index service.

pub mod client;
pub mod commands;
pub mod json;
pub mod messages;
pub mod model;
pub mod render;
pub mod review;

use vstd::prelude::*;

verus! {

/// A 1-indexed page cursor is in range when it lies between 1 and the
/// total reported by the index service.
pub open spec fn page_in_range(page: int, count: int) -> bool {
    1 <= page <= count
}

} // verus!
