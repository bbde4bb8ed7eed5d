//! The downloader: how the external program is invoked for one video, and
//! what its exit says.

use crate::error::DownloadError;
use vstd::prelude::*;

verus! {

/// The name under which the downloader is looked up on the search path.
pub const DOWNLOADER: &'static str = "youtube-dl";

/// The arguments that the downloader is started with for `video_url`:
/// MP4 video with M4A audio, else the best MP4, else the best of any
/// format; the output file named after title and extension; the URL last.
pub open spec fn downloader_arguments(video_url: Seq<char>) -> Seq<Seq<char>> {
    seq![
        "-f"@,
        "bestvideo[ext=mp4]+bestaudio[ext=m4a]/best[ext=mp4]/best"@,
        "-o"@,
        "%(title)s.%(ext)s"@,
        video_url,
    ]
}

/// Builds the downloader's arguments for `video_url`.
pub fn downloader_args(video_url: &str) -> (args: Vec<String>)
    ensures
        args.deep_view() == downloader_arguments(video_url@),
{
    let mut args: Vec<String> = Vec::new();
    args.push(String::from_str("-f"));
    args.push(String::from_str("bestvideo[ext=mp4]+bestaudio[ext=m4a]/best[ext=mp4]/best"));
    args.push(String::from_str("-o"));
    args.push(String::from_str("%(title)s.%(ext)s"));
    args.push(String::from_str(video_url));
    assert(args.deep_view() =~= downloader_arguments(video_url@));
    args
}

/// How an attempt to run the downloader ended.
#[derive(Debug, Clone, Copy, PartialEq, Eq, Structural)]
pub enum Invocation {
    /// The program could not be started.
    NotSpawned,
    /// The program ran and exited; `code` is `None` where it ended without
    /// an exit code.
    Exited { code: Option<i32> },
}

/// Whether the downloader ran and reported success, which is exit code 0.
pub open spec fn succeeded(invocation: Invocation) -> bool {
    invocation == (Invocation::Exited { code: Some(0i32) })
}

/// Reads an invocation's end: whether the download succeeded, or
/// [`DownloadError::Spawn`] where the downloader never ran.
pub fn download_succeeded(invocation: Invocation) -> (r: Result<bool, DownloadError>)
    ensures
        r == match invocation {
            Invocation::NotSpawned => Err::<bool, DownloadError>(DownloadError::Spawn),
            Invocation::Exited { .. } => Ok(succeeded(invocation)),
        },
{
    match invocation {
        Invocation::NotSpawned => Err(DownloadError::Spawn),
        Invocation::Exited { code } => match code {
            Some(code) => Ok(code == 0),
            None => Ok(false),
        },
    }
}

} // verus!
