//! The parameters of the requests on stored results.

use vstd::prelude::*;

verus! {

/// The parameters of a request for a preview.
#[derive(Debug)]
pub struct ThumbnailQuery {
    /// The size of the preview in pixels.
    pub size: u32,
}

/// The size of a preview when the request names none.
pub fn default_thumbnail_size() -> (r: u32)
    ensures
        r == 80,
{
    80
}

} // verus!
