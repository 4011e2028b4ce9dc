//! What the URL-resolution primitive yields for a YouTube-shaped URL:
//! either an opaque browse identifier usable for direct channel fetches,
//! or the fully qualified URL the input actually resolves to.

use vstd::prelude::*;

verus! {

/// "This URL, if visited, lands on X."
#[derive(Clone, Debug, PartialEq)]
pub enum ResolveUrlResult {
    BrowseEndpoint { browse_id: String },
    UrlEndpoint { url: String },
}

} // verus!
