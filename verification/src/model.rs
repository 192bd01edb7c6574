//! Typed model of a pending package submission as the index service
//! reports it: versions, per-platform artifacts, and dependency or
//! incompatibility entries.

use vstd::prelude::*;

verus! {

/// Per-platform target identifiers of one version; each platform is
/// independently present or absent.
pub struct PlatformTargets {
    pub win: Option<String>,
    pub mac: Option<String>,
    pub android32: Option<String>,
    pub android64: Option<String>,
    pub ios: Option<String>,
}

/// A dependency entry of one version: the target mod, a version
/// constraint, and an importance category.
pub struct Dependency {
    pub mod_id: String,
    pub version: String,
    pub importance: String,
}

/// An incompatibility entry of one version. Structurally the same
/// record as `Dependency`, kept as its own type because it means the
/// opposite relation.
pub struct Incompatibility {
    pub mod_id: String,
    pub version: String,
    pub importance: String,
}

/// One version of a pending submission.
pub struct Version {
    pub name: String,
    pub version: String,
    pub description: Option<String>,
    pub geode: String,
    pub early_load: bool,
    pub api: bool,
    pub gd: PlatformTargets,
    pub dependencies: Option<Vec<Dependency>>,
    pub incompatibilities: Option<Vec<Incompatibility>>,
}

/// A package submission awaiting validation, as one page-fetch
/// materializes it. Immutable locally; every navigation step fetches a
/// fresh one.
pub struct Submission {
    pub id: String,
    pub repository: Option<String>,
    pub versions: Vec<Version>,
    pub tags: Vec<String>,
    pub about: Option<String>,
    pub changelog: Option<String>,
}

/// One page of the paginated pending-submission listing: the
/// submissions of the page (the service sends one per page) and the
/// total that the service reports, which the review loop treats as the
/// page upper bound.
pub struct Page {
    pub data: Vec<Submission>,
    pub count: i32,
}

impl Page {
    /// The submission shown for this page, when the service sent one:
    /// the remote contract promises exactly one submission per page,
    /// and a host should not index the list unchecked in case the
    /// service breaks that promise.
    pub fn first_submission(&self) -> (r: Option<&Submission>)
        ensures
            r is None <==> self.data@.len() == 0,
            r matches Some(s) ==> self.data@.len() > 0 && *s == self.data@[0],
    {
        if self.data.len() == 0 {
            None
        } else {
            Some(&self.data[0])
        }
    }
}

} // verus!
