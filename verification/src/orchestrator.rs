//! The run: which lookup or downloader invocation comes next, given what
//! the last one answered.
//!
//! The library decides and the caller acts. [`start`] hands out the first
//! [`Step`]; the caller performs what `next` asks for and hands the answer
//! to the state that `next` carries, which gives the step after it, until
//! `next` is [`Next::Finished`].

use crate::error::DownloadError;
use crate::ident::{
    extract_playlist_id, extract_video_id, identifier, lemma_identifier_after_separator, SEPARATOR,
};
use crate::invoker::{download_succeeded, downloader_args, downloader_arguments, succeeded, Invocation};
use crate::metadata::{
    accept, accepted, is_success, playlist_items_url, playlist_request_url, select_video, selected,
    video_info_url, video_request_url, Config, PlaylistItems, Reply, VideoLookup, VideoLookupView,
    VideoRecord,
};
use crate::route::{classify, route_of, Route};
use crate::text::has_substring;
use std::collections::VecDeque;
use vstd::prelude::*;

verus! {

/// What a notice reports.
#[derive(Debug, Clone, Copy, PartialEq, Eq, Structural)]
pub enum NoticeKind {
    /// A playlist's items are about to be downloaded; the title is that of
    /// its first item.
    PlaylistStarted,
    /// The downloader is about to be started for the video of this title.
    VideoStarted,
    /// The downloader exited with success.
    VideoDownloaded,
    /// The downloader ran and did not exit with success.
    VideoFailed,
}

/// Something for the operator to see.
#[derive(Debug, Clone, PartialEq, Eq)]
pub struct Notice {
    pub kind: NoticeKind,
    pub title: String,
}

/// A notice as the contracts speak of it.
pub struct NoticeView {
    pub kind: NoticeKind,
    pub title: Seq<char>,
}

impl View for Notice {
    type V = NoticeView;

    open spec fn view(&self) -> NoticeView {
        NoticeView { kind: self.kind, title: self.title@ }
    }
}

/// What is left of a run: the key for its lookups and the watch URLs of the
/// videos not yet begun, in order.
#[derive(Debug)]
pub struct Pending {
    config: Config,
    urls: VecDeque<String>,
}

/// What is left of a run as the contracts speak of it.
pub struct PendingView {
    pub api_key: Seq<char>,
    pub urls: Seq<Seq<char>>,
}

impl View for Pending {
    type V = PendingView;

    closed spec fn view(&self) -> PendingView {
        PendingView { api_key: self.config.api_key@, urls: self.urls.deep_view() }
    }
}

/// The run waits for the reply to the playlist lookup.
#[derive(Debug)]
pub struct AwaitingPlaylist {
    config: Config,
}

/// The state that waits for a playlist as the contracts speak of it.
pub struct AwaitingPlaylistView {
    pub api_key: Seq<char>,
}

impl View for AwaitingPlaylist {
    type V = AwaitingPlaylistView;

    closed spec fn view(&self) -> AwaitingPlaylistView {
        AwaitingPlaylistView { api_key: self.config.api_key@ }
    }
}

/// The run waits for the reply to the lookup of the video at `video_url`.
#[derive(Debug)]
pub struct AwaitingVideo {
    video_url: String,
    video_id: String,
    rest: Pending,
}

/// The state that waits for a video lookup as the contracts speak of it:
/// the URL that the downloader will get, the id that the lookup asks for,
/// and what is left after this video.
pub struct AwaitingVideoView {
    pub video_url: Seq<char>,
    pub video_id: Seq<char>,
    pub rest: PendingView,
}

impl View for AwaitingVideo {
    type V = AwaitingVideoView;

    closed spec fn view(&self) -> AwaitingVideoView {
        AwaitingVideoView { video_url: self.video_url@, video_id: self.video_id@, rest: self.rest@ }
    }
}

/// The run waits for the downloader, started for the video of this title,
/// to end.
#[derive(Debug)]
pub struct AwaitingExit {
    title: String,
    rest: Pending,
}

/// The state that waits for the downloader as the contracts speak of it.
pub struct AwaitingExitView {
    pub title: Seq<char>,
    pub rest: PendingView,
}

impl View for AwaitingExit {
    type V = AwaitingExitView;

    closed spec fn view(&self) -> AwaitingExitView {
        AwaitingExitView { title: self.title@, rest: self.rest@ }
    }
}

/// What the caller is to do next, with the state that takes the answer.
#[derive(Debug)]
#[allow(inconsistent_fields)]
pub enum Next {
    /// Get `request_url` and read the body as a playlist's items.
    FetchPlaylist { request_url: String, state: AwaitingPlaylist },
    /// Get `request_url` and read the body as a video lookup.
    FetchVideo { request_url: String, state: AwaitingVideo },
    /// Run the downloader with `args` and wait for it to end.
    Invoke { args: Vec<String>, state: AwaitingExit },
    /// The run is over.
    Finished { result: Result<(), DownloadError> },
}

/// What comes next as the contracts speak of it.
#[allow(inconsistent_fields)]
pub enum NextView {
    FetchPlaylist { request_url: Seq<char>, state: AwaitingPlaylistView },
    FetchVideo { request_url: Seq<char>, state: AwaitingVideoView },
    Invoke { args: Seq<Seq<char>>, state: AwaitingExitView },
    Finished { result: Result<(), DownloadError> },
}

impl View for Next {
    type V = NextView;

    open spec fn view(&self) -> NextView {
        match *self {
            Next::FetchPlaylist { request_url, state } => NextView::FetchPlaylist {
                request_url: request_url@,
                state: state@,
            },
            Next::FetchVideo { request_url, state } => NextView::FetchVideo {
                request_url: request_url@,
                state: state@,
            },
            Next::Invoke { args, state } => NextView::Invoke {
                args: args.deep_view(),
                state: state@,
            },
            Next::Finished { result } => NextView::Finished { result },
        }
    }
}

/// One decision of the run: what to show the operator, and what to do.
#[derive(Debug)]
pub struct Step {
    pub notice: Option<Notice>,
    pub next: Next,
}

/// A step as the contracts speak of it.
pub struct StepView {
    pub notice: Option<NoticeView>,
    pub next: NextView,
}

impl View for Step {
    type V = StepView;

    open spec fn view(&self) -> StepView {
        StepView {
            notice: match self.notice {
                Some(notice) => Some(notice@),
                None => None,
            },
            next: self.next@,
        }
    }
}

/// The canonical watch URL of the video `video_id`.
pub open spec fn watch_url(video_id: Seq<char>) -> Seq<char> {
    "https://www.youtube.com/watch?v="@ + video_id
}

/// The watch URLs of `items`, in their order.
pub open spec fn watch_urls(items: Seq<VideoRecord>) -> Seq<Seq<char>> {
    Seq::new(items.len(), |i: int| watch_url(items[i].id))
}

/// The step that ends the run with `result` and shows nothing.
pub open spec fn finished(result: Result<(), DownloadError>) -> StepView {
    StepView { notice: None, next: NextView::Finished { result } }
}

/// The single-video path begins: look up the video that `video_url` names.
pub open spec fn begin_video(video_url: Seq<char>, rest: PendingView) -> NextView {
    NextView::FetchVideo {
        request_url: video_request_url(identifier(video_url), rest.api_key),
        state: AwaitingVideoView { video_url, video_id: identifier(video_url), rest },
    }
}

/// What follows a video that is done with: the single-video path for the
/// first URL that is pending, or the end of the run where none is.
pub open spec fn begin_next(rest: PendingView) -> NextView {
    if rest.urls.len() == 0 {
        NextView::Finished { result: Ok(()) }
    } else {
        begin_video(
            rest.urls[0],
            PendingView { api_key: rest.api_key, urls: rest.urls.drop_first() },
        )
    }
}

/// The first step of a run on `url`.
pub open spec fn begin(url: Seq<char>, api_key: Seq<char>) -> StepView {
    StepView {
        notice: None,
        next: match route_of(url) {
            Route::Playlist => NextView::FetchPlaylist {
                request_url: playlist_request_url(identifier(url), api_key),
                state: AwaitingPlaylistView { api_key },
            },
            Route::SingleVideo => begin_video(url, PendingView { api_key, urls: Seq::empty() }),
        },
    }
}

/// The step after the reply to a playlist lookup.
pub open spec fn after_playlist(
    state: AwaitingPlaylistView,
    reply: Reply<Seq<VideoRecord>>,
) -> StepView {
    match accepted(reply) {
        None => finished(Err(DownloadError::MetadataFetch)),
        Some(items) => if items.len() == 0 {
            finished(Err(DownloadError::EmptyPlaylist))
        } else {
            StepView {
                notice: Some(
                    NoticeView { kind: NoticeKind::PlaylistStarted, title: items[0].title },
                ),
                next: begin_next(
                    PendingView { api_key: state.api_key, urls: watch_urls(items) },
                ),
            }
        },
    }
}

/// The step after the reply to a video lookup.
pub open spec fn after_video(state: AwaitingVideoView, reply: Reply<VideoLookupView>) -> StepView {
    match accepted(reply) {
        None => finished(Err(DownloadError::MetadataFetch)),
        Some(lookup) => {
            let title = selected(lookup, state.video_id).title;
            StepView {
                notice: Some(NoticeView { kind: NoticeKind::VideoStarted, title }),
                next: NextView::Invoke {
                    args: downloader_arguments(state.video_url),
                    state: AwaitingExitView { title, rest: state.rest },
                },
            }
        },
    }
}

/// The step after the downloader's end.
pub open spec fn after_exit(state: AwaitingExitView, invocation: Invocation) -> StepView {
    match invocation {
        Invocation::NotSpawned => finished(Err(DownloadError::Spawn)),
        Invocation::Exited { .. } => StepView {
            notice: Some(
                NoticeView {
                    kind: if succeeded(invocation) {
                        NoticeKind::VideoDownloaded
                    } else {
                        NoticeKind::VideoFailed
                    },
                    title: state.title,
                },
            ),
            next: begin_next(state.rest),
        },
    }
}

/// Builds the canonical watch URL of the video `video_id`.
pub fn watch_url_for(video_id: &str) -> (url: String)
    ensures
        url@ == watch_url(video_id@),
{
    let mut url = String::from_str("https://www.youtube.com/watch?v=");
    url.append(video_id);
    url
}

/// Builds the watch URLs of a playlist's items, in their order.
pub fn watch_urls_of(playlist: &PlaylistItems) -> (urls: VecDeque<String>)
    ensures
        urls.deep_view() == watch_urls(playlist@),
{
    let mut urls: VecDeque<String> = VecDeque::new();
    let mut i: usize = 0;
    while i < playlist.items.len()
        invariant
            i <= playlist.items.len(),
            urls@.len() == i,
            forall|k: int| 0 <= k < i ==> urls@[k]@ == watch_url(playlist.items[k].id@),
        decreases playlist.items.len() - i,
    {
        let url = watch_url_for(playlist.items[i].id.as_str());
        urls.push_back(url);
        i = i + 1;
    }
    assert(urls.deep_view() =~= watch_urls(playlist@));
    urls
}

/// The step that ends the run with `result`.
fn end(result: Result<(), DownloadError>) -> (step: Step)
    ensures
        step@ == finished(result),
{
    Step { notice: None, next: Next::Finished { result } }
}

/// Begins the single-video path for `video_url`.
fn fetch_video(video_url: String, rest: Pending) -> (next: Next)
    ensures
        next@ == begin_video(video_url@, rest@),
{
    match extract_video_id(video_url.as_str()) {
        Ok(video_id) => {
            let request_url = video_info_url(video_id.as_str(), &rest.config);
            Next::FetchVideo { request_url, state: AwaitingVideo { video_url, video_id, rest } }
        },
        Err(_) => Next::Finished { result: Err(DownloadError::Extraction) },
    }
}

/// Begins the single-video path for the first pending URL, or ends the run
/// in success where none is pending.
fn fetch_next(rest: Pending) -> (next: Next)
    ensures
        next@ == begin_next(rest@),
{
    let Pending { config, urls } = rest;
    let mut urls = urls;
    let ghost before = urls.deep_view();
    match urls.pop_front() {
        Some(video_url) => {
            assert(urls.deep_view() =~= before.drop_first());
            assert(video_url@ == before[0]);
            fetch_video(video_url, Pending { config, urls })
        },
        None => Next::Finished { result: Ok(()) },
    }
}

/// Begins a run on `url`: the playlist lookup where `url` holds the text
/// `playlist`, and the lookup of the one video otherwise.
pub fn start(url: &str, config: &Config) -> (step: Step)
    ensures
        step@ == begin(url@, config.api_key@),
        step.notice is None,
        has_substring(url@, "playlist"@) ==> step.next is FetchPlaylist,
        !has_substring(url@, "playlist"@) ==> step.next is FetchVideo,
{
    let config = Config { api_key: config.api_key.clone() };
    let next = match classify(url) {
        Route::Playlist => match extract_playlist_id(url) {
            Ok(playlist_id) => {
                let request_url = playlist_items_url(playlist_id.as_str(), &config);
                Next::FetchPlaylist { request_url, state: AwaitingPlaylist { config } }
            },
            Err(_) => Next::Finished { result: Err(DownloadError::Extraction) },
        },
        Route::SingleVideo => {
            let rest = Pending { config, urls: VecDeque::new() };
            assert(rest@.urls =~= Seq::empty());
            fetch_video(String::from_str(url), rest)
        },
    };
    Step { notice: None, next }
}

impl AwaitingPlaylist {
    /// Takes the reply to the playlist lookup. Without a delivered body the
    /// run ends with [`DownloadError::MetadataFetch`], and with a body that
    /// lists nothing with [`DownloadError::EmptyPlaylist`]; otherwise the
    /// single-video path begins for the first item, and the others wait in
    /// their order.
    pub fn receive(self, reply: Reply<PlaylistItems>) -> (step: Step)
        ensures
            step@ == after_playlist(self@, reply@),
    {
        match accept(reply) {
            Err(error) => end(Err(error)),
            Ok(playlist) => {
                if playlist.items.len() == 0 {
                    end(Err(DownloadError::EmptyPlaylist))
                } else {
                    let title = playlist.items[0].snippet.title.clone();
                    let urls = watch_urls_of(&playlist);
                    let rest = Pending { config: self.config, urls };
                    Step {
                        notice: Some(Notice { kind: NoticeKind::PlaylistStarted, title }),
                        next: fetch_next(rest),
                    }
                }
            },
        }
    }
}

impl AwaitingVideo {
    /// Takes the reply to the video lookup. Without a delivered body, and
    /// so for every status outside 2xx, the run ends with
    /// [`DownloadError::MetadataFetch`] and the downloader is not started;
    /// otherwise the downloader is to be started on the video's URL.
    pub fn receive(self, reply: Reply<VideoLookup>) -> (step: Step)
        ensures
            step@ == after_video(self@, reply@),
            accepted(reply) is None ==> step@ == finished(Err(DownloadError::MetadataFetch)),
            reply matches Reply::Response { status, .. } && !is_success(status) ==> step.next
                == (Next::Finished { result: Err(DownloadError::MetadataFetch) }),
            accepted(reply) is Some ==> step.next is Invoke,
    {
        match accept(reply) {
            Err(error) => end(Err(error)),
            Ok(lookup) => {
                let video = select_video(lookup, self.video_id.as_str());
                let title = video.snippet.title;
                let args = downloader_args(self.video_url.as_str());
                Step {
                    notice: Some(Notice { kind: NoticeKind::VideoStarted, title: title.clone() }),
                    next: Next::Invoke { args, state: AwaitingExit { title, rest: self.rest } },
                }
            },
        }
    }
}

impl AwaitingExit {
    /// Takes the downloader's end. Where it could not be started the run
    /// ends with [`DownloadError::Spawn`]. Where it ran, the outcome is
    /// shown and the run goes on with the next pending video, whatever the
    /// exit code was, or ends in success where none is pending.
    pub fn exited(self, invocation: Invocation) -> (step: Step)
        ensures
            step@ == after_exit(self@, invocation),
            invocation is NotSpawned ==> step@ == finished(Err(DownloadError::Spawn)),
            invocation is Exited ==> step@.next == begin_next(self@.rest),
    {
        match download_succeeded(invocation) {
            Err(error) => end(Err(error)),
            Ok(downloaded) => {
                let kind = if downloaded {
                    NoticeKind::VideoDownloaded
                } else {
                    NoticeKind::VideoFailed
                };
                Step {
                    notice: Some(Notice { kind, title: self.title }),
                    next: fetch_next(self.rest),
                }
            },
        }
    }
}

/// A playlist item whose id holds no `=` is looked up by that id: it is the
/// identifier of the item's watch URL.
pub proof fn lemma_item_is_looked_up_by_its_id(video_id: Seq<char>, rest: PendingView)
    requires
        !video_id.contains(SEPARATOR),
    ensures
        identifier(watch_url(video_id)) == video_id,
        begin_video(watch_url(video_id), rest)->FetchVideo_request_url == video_request_url(
            video_id,
            rest.api_key,
        ),
{
    reveal_strlit("https://www.youtube.com/watch?v=");
    lemma_identifier_after_separator("https://www.youtube.com/watch?v="@, video_id);
}

/// What the surroundings answer in the course of one run: the reply to the
/// playlist lookup, the reply to each video lookup and the end of each
/// downloader invocation, the last two counted from 0 in the order in
/// which the run asks.
pub struct Answers {
    pub playlist: Reply<Seq<VideoRecord>>,
    pub lookups: spec_fn(int) -> Reply<VideoLookupView>,
    pub invocations: spec_fn(int) -> Invocation,
}

/// What a run did: the arguments of each downloader invocation, in order,
/// and how the run ended.
pub struct Record {
    pub invocations: Seq<Seq<Seq<char>>>,
    pub result: Result<(), DownloadError>,
}

/// A bound on the steps that are left after `next`.
pub open spec fn steps_left(next: NextView, answers: Answers) -> nat {
    match next {
        NextView::FetchPlaylist { .. } => match accepted(answers.playlist) {
            Some(items) => 2 * items.len() + 1,
            None => 1,
        },
        NextView::FetchVideo { state, .. } => 2 * state.rest.urls.len() + 2,
        NextView::Invoke { state, .. } => 2 * state.rest.urls.len() + 1,
        NextView::Finished { .. } => 0,
    }
}

/// The run from `next` on, in surroundings that give `answers`, when
/// `done` videos have been dealt with before.
pub open spec fn run(next: NextView, answers: Answers, done: int) -> Record
    decreases steps_left(next, answers),
{
    match next {
        NextView::FetchPlaylist { state, .. } => run(
            after_playlist(state, answers.playlist).next,
            answers,
            done,
        ),
        NextView::FetchVideo { state, .. } => run(
            after_video(state, (answers.lookups)(done)).next,
            answers,
            done,
        ),
        NextView::Invoke { args, state } => {
            let then = run(after_exit(state, (answers.invocations)(done)).next, answers, done + 1);
            Record { invocations: seq![args] + then.invocations, result: then.result }
        },
        NextView::Finished { result } => Record { invocations: Seq::empty(), result },
    }
}

/// The downloader's arguments for each of `urls`, in order.
pub open spec fn invocations_for(urls: Seq<Seq<char>>) -> Seq<Seq<Seq<char>>> {
    Seq::new(urls.len(), |i: int| downloader_arguments(urls[i]))
}

/// Whether the `k`-th video of a run gets its metadata and has the
/// downloader started, whatever the downloader's exit code is.
pub open spec fn video_goes_through(answers: Answers, k: int) -> bool {
    &&& accepted((answers.lookups)(k)) is Some
    &&& (answers.invocations)(k) is Exited
}

/// Where every pending video gets its metadata and has the downloader
/// started, the run invokes the downloader once for each pending URL, in
/// their order, and ends in success. No exit code makes a difference: a
/// download that failed does not keep the later ones from being tried.
pub proof fn lemma_run_visits_every_pending_video(rest: PendingView, answers: Answers, done: int)
    requires
        forall|k: int| done <= k < done + rest.urls.len() ==> video_goes_through(answers, k),
    ensures
        run(begin_next(rest), answers, done) == (Record {
            invocations: invocations_for(rest.urls),
            result: Ok(()),
        }),
    decreases rest.urls.len(),
{
    if rest.urls.len() == 0 {
        assert(invocations_for(rest.urls) =~= Seq::empty());
    } else {
        let later = PendingView { api_key: rest.api_key, urls: rest.urls.drop_first() };
        assert(video_goes_through(answers, done));
        lemma_run_visits_every_pending_video(later, answers, done + 1);
        let fetch = begin_video(rest.urls[0], later);
        let invoke = after_video(fetch->FetchVideo_state, (answers.lookups)(done)).next;
        assert(invoke is Invoke);
        assert(after_exit(invoke->Invoke_state, (answers.invocations)(done)).next == begin_next(
            later,
        ));
        assert(run(fetch, answers, done) == run(invoke, answers, done));
        assert(invocations_for(rest.urls) =~= seq![downloader_arguments(rest.urls[0])]
            + invocations_for(later.urls));
    }
}

/// Where the videos before the `k`-th go through and the `k`-th does not,
/// the run stops there: with [`DownloadError::MetadataFetch`] and no
/// invocation for that video where its lookup delivers no body, and with
/// [`DownloadError::Spawn`] where the downloader cannot be started for it.
/// No later video is begun.
pub proof fn lemma_run_stops_at_first_failure(
    rest: PendingView,
    answers: Answers,
    done: int,
    k: int,
)
    requires
        done <= k < done + rest.urls.len(),
        forall|j: int| done <= j < k ==> video_goes_through(answers, j),
        !video_goes_through(answers, k),
    ensures
        run(begin_next(rest), answers, done) == if accepted((answers.lookups)(k)) is None {
            Record {
                invocations: invocations_for(rest.urls.take(k - done)),
                result: Err(DownloadError::MetadataFetch),
            }
        } else {
            Record {
                invocations: invocations_for(rest.urls.take(k - done + 1)),
                result: Err(DownloadError::Spawn),
            }
        },
    decreases rest.urls.len(),
{
    let later = PendingView { api_key: rest.api_key, urls: rest.urls.drop_first() };
    let fetch = begin_video(rest.urls[0], later);
    let reply = (answers.lookups)(done);
    if k == done {
        if accepted(reply) is None {
            let stop = NextView::Finished { result: Err(DownloadError::MetadataFetch) };
            assert(after_video(fetch->FetchVideo_state, reply).next == stop);
            assert(run(stop, answers, done).invocations == Seq::<Seq<Seq<char>>>::empty());
            assert(run(fetch, answers, done) == run(stop, answers, done));
            assert(invocations_for(rest.urls.take(0)) =~= Seq::empty());
        } else {
            let invoke = after_video(fetch->FetchVideo_state, reply).next;
            assert(invoke is Invoke);
            let stop = NextView::Finished { result: Err(DownloadError::Spawn) };
            assert(after_exit(invoke->Invoke_state, (answers.invocations)(done)).next == stop);
            assert(run(stop, answers, done + 1).invocations == Seq::<Seq<Seq<char>>>::empty());
            assert(run(fetch, answers, done) == run(invoke, answers, done));
            assert(invocations_for(rest.urls.take(1)) =~= seq![
                downloader_arguments(rest.urls[0]),
            ] + Seq::empty());
        }
    } else {
        assert(video_goes_through(answers, done));
        lemma_run_stops_at_first_failure(later, answers, done + 1, k);
        let invoke = after_video(fetch->FetchVideo_state, reply).next;
        assert(invoke is Invoke);
        assert(after_exit(invoke->Invoke_state, (answers.invocations)(done)).next == begin_next(
            later,
        ));
        assert(run(fetch, answers, done) == run(invoke, answers, done));
        let n = k - done;
        assert(later.urls.take(n - 1) =~= rest.urls.take(n).drop_first());
        assert(later.urls.take(n) =~= rest.urls.take(n + 1).drop_first());
        assert(invocations_for(rest.urls.take(n)) =~= seq![downloader_arguments(rest.urls[0])]
            + invocations_for(later.urls.take(n - 1)));
        assert(invocations_for(rest.urls.take(n + 1)) =~= seq![
            downloader_arguments(rest.urls[0]),
        ] + invocations_for(later.urls.take(n)));
    }
}

/// A run on a playlist URL whose lookup delivers `items`, at least one, and
/// whose videos all go through invokes the downloader exactly once for
/// each item, on the item's watch URL and in the playlist's order, and
/// ends in success.
pub proof fn lemma_playlist_run_downloads_every_item(
    url: Seq<char>,
    api_key: Seq<char>,
    answers: Answers,
    items: Seq<VideoRecord>,
)
    requires
        route_of(url) == Route::Playlist,
        accepted(answers.playlist) == Some(items),
        items.len() > 0,
        forall|k: int| 0 <= k < items.len() ==> video_goes_through(answers, k),
    ensures
        run(begin(url, api_key).next, answers, 0) == (Record {
            invocations: invocations_for(watch_urls(items)),
            result: Ok(()),
        }),
        run(begin(url, api_key).next, answers, 0).invocations.len() == items.len(),
        forall|k: int|
            0 <= k < items.len() ==> run(begin(url, api_key).next, answers, 0).invocations[k]
                == downloader_arguments(watch_url(#[trigger] items[k].id)),
{
    let rest = PendingView { api_key, urls: watch_urls(items) };
    lemma_run_visits_every_pending_video(rest, answers, 0);
}

/// A run on a playlist URL whose lookup delivers `items`, and in which the
/// videos before the `k`-th go through and the `k`-th does not, invokes the
/// downloader for the items before the `k`-th, and for the `k`-th too
/// where the failure is the downloader's, and ends with that failure: with
/// [`DownloadError::MetadataFetch`] or with [`DownloadError::Spawn`].
pub proof fn lemma_playlist_run_stops_at_first_failure(
    url: Seq<char>,
    api_key: Seq<char>,
    answers: Answers,
    items: Seq<VideoRecord>,
    k: int,
)
    requires
        route_of(url) == Route::Playlist,
        accepted(answers.playlist) == Some(items),
        0 <= k < items.len(),
        forall|j: int| 0 <= j < k ==> video_goes_through(answers, j),
        !video_goes_through(answers, k),
    ensures
        run(begin(url, api_key).next, answers, 0) == if accepted((answers.lookups)(k)) is None {
            Record {
                invocations: invocations_for(watch_urls(items).take(k)),
                result: Err(DownloadError::MetadataFetch),
            }
        } else {
            Record {
                invocations: invocations_for(watch_urls(items).take(k + 1)),
                result: Err(DownloadError::Spawn),
            }
        },
{
    let rest = PendingView { api_key, urls: watch_urls(items) };
    lemma_run_stops_at_first_failure(rest, answers, 0, k);
}

/// A run on a playlist URL whose lookup delivers no body ends with
/// [`DownloadError::MetadataFetch`], and one whose lookup delivers a body
/// without items ends with [`DownloadError::EmptyPlaylist`]; neither looks
/// up a video or invokes the downloader.
pub proof fn lemma_playlist_run_without_items(url: Seq<char>, api_key: Seq<char>, answers: Answers)
    requires
        route_of(url) == Route::Playlist,
        accepted(answers.playlist) is None || accepted(answers.playlist)->0.len() == 0,
    ensures
        run(begin(url, api_key).next, answers, 0) == (Record {
            invocations: Seq::empty(),
            result: Err(
                if accepted(answers.playlist) is None {
                    DownloadError::MetadataFetch
                } else {
                    DownloadError::EmptyPlaylist
                },
            ),
        }),
{
    let first = begin(url, api_key).next;
    let stop = after_playlist(first->FetchPlaylist_state, answers.playlist).next;
    assert(stop is Finished);
    assert(run(stop, answers, 0).invocations == Seq::<Seq<Seq<char>>>::empty());
    assert(run(first, answers, 0) == run(stop, answers, 0));
}

/// A run on a single video's URL. Where the lookup delivers no body, as
/// for every status outside 2xx, it ends with
/// [`DownloadError::MetadataFetch`] and the downloader is not invoked.
/// Where it delivers one, the downloader is invoked once, on `url` itself;
/// the run ends in success where the downloader ran, whatever its exit
/// code, and with [`DownloadError::Spawn`] where it could not be started.
pub proof fn lemma_single_video_run(url: Seq<char>, api_key: Seq<char>, answers: Answers)
    requires
        route_of(url) == Route::SingleVideo,
    ensures
        run(begin(url, api_key).next, answers, 0) == if accepted((answers.lookups)(0)) is None {
            Record { invocations: Seq::empty(), result: Err(DownloadError::MetadataFetch) }
        } else {
            Record {
                invocations: seq![downloader_arguments(url)],
                result: if (answers.invocations)(0) is Exited {
                    Ok(())
                } else {
                    Err(DownloadError::Spawn)
                },
            }
        },
{
    let rest = PendingView { api_key, urls: seq![url] };
    assert(rest.urls.drop_first() =~= Seq::empty());
    assert(begin(url, api_key).next == begin_next(rest));
    if video_goes_through(answers, 0) {
        lemma_run_visits_every_pending_video(rest, answers, 0);
        assert(invocations_for(rest.urls) =~= seq![downloader_arguments(url)]);
    } else {
        lemma_run_stops_at_first_failure(rest, answers, 0, 0);
        assert(rest.urls.take(0) =~= Seq::empty());
        assert(rest.urls.take(1) =~= rest.urls);
        assert(invocations_for(Seq::<Seq<char>>::empty()) =~= Seq::empty());
        assert(invocations_for(rest.urls) =~= seq![downloader_arguments(url)]);
    }
}

} // verus!
