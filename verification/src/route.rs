//! Classification of the input URL.

use crate::text::{contains, has_substring};
use vstd::prelude::*;

verus! {

/// The path that a URL is handled on.
#[derive(Debug, Clone, Copy, PartialEq, Eq, Structural)]
pub enum Route {
    /// The URL names one video.
    SingleVideo,
    /// The URL names a playlist.
    Playlist,
}

/// The route of `url`: the playlist path exactly where `url` holds the text
/// `playlist`.
pub open spec fn route_of(url: Seq<char>) -> Route {
    if has_substring(url, "playlist"@) {
        Route::Playlist
    } else {
        Route::SingleVideo
    }
}

/// Decides on which path `url` is handled.
pub fn classify(url: &str) -> (route: Route)
    ensures
        route == route_of(url@),
        route == Route::Playlist <==> has_substring(url@, "playlist"@),
        route == Route::SingleVideo <==> !has_substring(url@, "playlist"@),
{
    if contains(url, "playlist") {
        Route::Playlist
    } else {
        Route::SingleVideo
    }
}

} // verus!
