//! The ways in which resolving and downloading a URL can fail.

use vstd::prelude::*;

verus! {

/// A failure that ends the run.
#[derive(Debug, Clone, Copy, PartialEq, Eq, Structural)]
pub enum DownloadError {
    /// No identifier could be derived from the URL.
    Extraction,
    /// The metadata lookup got no response, a status outside 2xx, or a body
    /// of another shape than the one expected.
    MetadataFetch,
    /// The playlist lookup succeeded and listed no item.
    EmptyPlaylist,
    /// The downloader could not be started.
    Spawn,
}

} // verus!
