use std::collections::VecDeque;
use youtube_downloader::error::DownloadError;
use youtube_downloader::invoker::Invocation;
use youtube_downloader::metadata::{
    Config, PlaylistItems, Reply, Snippet, VideoInfo, VideoLookup,
};
use youtube_downloader::orchestrator::{
    start, watch_url_for, watch_urls_of, Next, Notice, NoticeKind, Step,
};

const VIDEOS: &str = "https://www.googleapis.com/youtube/v3/videos?part=snippet&id=";
const ITEMS: &str = "https://www.googleapis.com/youtube/v3/playlistItems?playlistId=";
const FORMAT: &str = "bestvideo[ext=mp4]+bestaudio[ext=m4a]/best[ext=mp4]/best";

fn config() -> Config {
    Config { api_key: "KEY".to_string() }
}

fn video(id: &str, title: &str) -> VideoInfo {
    VideoInfo { id: id.to_string(), snippet: Snippet { title: title.to_string() } }
}

fn listed(id: &str, title: &str) -> Reply<VideoLookup> {
    Reply::Response {
        status: 200,
        body: Some(VideoLookup { record: video("", ""), items: vec![video(id, title)] }),
    }
}

fn playlist(items: Vec<VideoInfo>) -> Reply<PlaylistItems> {
    Reply::Response { status: 200, body: Some(PlaylistItems { items }) }
}

fn notice(kind: NoticeKind, title: &str) -> Notice {
    Notice { kind, title: title.to_string() }
}

const EXIT_OK: Invocation = Invocation::Exited { code: Some(0) };

/// The surroundings of a run: what each lookup and each invocation answers.
struct Answers {
    playlist: Reply<PlaylistItems>,
    lookups: VecDeque<Reply<VideoLookup>>,
    invocations: VecDeque<Invocation>,
}

/// What a run asked for and showed, and how it ended.
#[derive(Debug, PartialEq)]
struct Record {
    requests: Vec<String>,
    invocations: Vec<Vec<String>>,
    notices: Vec<Notice>,
    result: Result<(), DownloadError>,
}

fn answers(
    playlist: Reply<PlaylistItems>,
    lookups: Vec<Reply<VideoLookup>>,
    invocations: Vec<Invocation>,
) -> Answers {
    Answers { playlist, lookups: lookups.into(), invocations: invocations.into() }
}

fn run(url: &str, mut answers: Answers) -> Record {
    let mut requests = Vec::new();
    let mut invocations = Vec::new();
    let mut notices = Vec::new();
    let mut step = start(url, &config());
    loop {
        let Step { notice, next } = step;
        notices.extend(notice);
        step = match next {
            Next::FetchPlaylist { request_url, state } => {
                requests.push(request_url);
                state.receive(answers.playlist.clone())
            }
            Next::FetchVideo { request_url, state } => {
                requests.push(request_url);
                state.receive(answers.lookups.pop_front().expect("a lookup too many"))
            }
            Next::Invoke { args, state } => {
                invocations.push(args);
                state.exited(answers.invocations.pop_front().expect("an invocation too many"))
            }
            Next::Finished { result } => {
                return Record { requests, invocations, notices, result };
            }
        };
    }
}

fn args_for(url: &str) -> Vec<String> {
    vec![
        "-f".to_string(),
        FORMAT.to_string(),
        "-o".to_string(),
        "%(title)s.%(ext)s".to_string(),
        url.to_string(),
    ]
}

#[test]
fn watch_url_is_built_from_the_id() {
    assert_eq!(watch_url_for("a1"), "https://www.youtube.com/watch?v=a1");
    assert_eq!(watch_url_for(""), "https://www.youtube.com/watch?v=");
}

#[test]
fn watch_urls_keep_the_order_of_the_items() {
    let items = PlaylistItems { items: vec![video("a1", "x"), video("a2", "y"), video("a1", "z")] };
    let urls: Vec<String> = watch_urls_of(&items).into_iter().collect();
    assert_eq!(
        urls,
        vec![
            "https://www.youtube.com/watch?v=a1".to_string(),
            "https://www.youtube.com/watch?v=a2".to_string(),
            "https://www.youtube.com/watch?v=a1".to_string(),
        ]
    );
    assert!(watch_urls_of(&PlaylistItems { items: vec![] }).is_empty());
}

#[test]
fn a_playlist_url_starts_with_the_playlist_lookup() {
    let step = start("https://www.youtube.com/playlist?list=PL42", &config());
    assert!(step.notice.is_none());
    match step.next {
        Next::FetchPlaylist { request_url, .. } => {
            assert_eq!(request_url, format!("{ITEMS}PL42&key=KEY&part=snippet&maxResults=50"));
        }
        other => panic!("{other:?}"),
    }
}

#[test]
fn a_video_url_starts_with_the_video_lookup() {
    let step = start("https://www.youtube.com/watch?v=abc123", &config());
    assert!(step.notice.is_none());
    match step.next {
        Next::FetchVideo { request_url, .. } => {
            assert_eq!(request_url, format!("{VIDEOS}abc123&key=KEY"));
        }
        other => panic!("{other:?}"),
    }
}

#[test]
fn a_url_without_separator_is_looked_up_whole() {
    let step = start("https://youtu.be/abc123", &config());
    match step.next {
        Next::FetchVideo { request_url, .. } => {
            assert_eq!(request_url, format!("{VIDEOS}https://youtu.be/abc123&key=KEY"));
        }
        other => panic!("{other:?}"),
    }
}

#[test]
fn fetching_a_video_yields_its_title() {
    let url = "https://www.youtube.com/watch?v=abc123";
    let body = VideoLookup { record: video("abc123", "Test Video"), items: vec![] };
    let reply = Reply::Response { status: 200, body: Some(body) };
    let record = run(url, answers(Reply::NoResponse, vec![reply], vec![EXIT_OK]));
    assert_eq!(
        record,
        Record {
            requests: vec![format!("{VIDEOS}abc123&key=KEY")],
            invocations: vec![args_for(url)],
            notices: vec![
                notice(NoticeKind::VideoStarted, "Test Video"),
                notice(NoticeKind::VideoDownloaded, "Test Video"),
            ],
            result: Ok(()),
        }
    );
}

#[test]
fn fetching_a_video_from_a_listing_yields_its_title() {
    let url = "https://www.youtube.com/watch?v=abc123";
    let record = run(
        url,
        answers(Reply::NoResponse, vec![listed("abc123", "Test Video")], vec![EXIT_OK]),
    );
    assert_eq!(record.notices[0], notice(NoticeKind::VideoStarted, "Test Video"));
    assert_eq!(record.invocations, vec![args_for(url)]);
    assert_eq!(record.result, Ok(()));
}

#[test]
fn a_playlist_of_two_runs_the_video_path_twice_in_order() {
    let items = vec![video("a1", "First"), video("a2", "Second")];
    let record = run(
        "https://www.youtube.com/playlist?list=PL42",
        answers(
            playlist(items),
            vec![listed("a1", "One"), listed("a2", "Two")],
            vec![EXIT_OK, EXIT_OK],
        ),
    );
    assert_eq!(
        record,
        Record {
            requests: vec![
                format!("{ITEMS}PL42&key=KEY&part=snippet&maxResults=50"),
                format!("{VIDEOS}a1&key=KEY"),
                format!("{VIDEOS}a2&key=KEY"),
            ],
            invocations: vec![
                args_for("https://www.youtube.com/watch?v=a1"),
                args_for("https://www.youtube.com/watch?v=a2"),
            ],
            notices: vec![
                notice(NoticeKind::PlaylistStarted, "First"),
                notice(NoticeKind::VideoStarted, "One"),
                notice(NoticeKind::VideoDownloaded, "One"),
                notice(NoticeKind::VideoStarted, "Two"),
                notice(NoticeKind::VideoDownloaded, "Two"),
            ],
            result: Ok(()),
        }
    );
}

#[test]
fn a_failed_download_does_not_keep_later_items_from_being_processed() {
    let items = vec![video("a1", "First"), video("a2", "Second"), video("a3", "Third")];
    let record = run(
        "https://www.youtube.com/playlist?list=PL42",
        answers(
            playlist(items),
            vec![listed("a1", "One"), listed("a2", "Two"), listed("a3", "Three")],
            vec![
                Invocation::Exited { code: Some(1) },
                Invocation::Exited { code: None },
                EXIT_OK,
            ],
        ),
    );
    assert_eq!(
        record.invocations,
        vec![
            args_for("https://www.youtube.com/watch?v=a1"),
            args_for("https://www.youtube.com/watch?v=a2"),
            args_for("https://www.youtube.com/watch?v=a3"),
        ]
    );
    assert_eq!(
        record.notices,
        vec![
            notice(NoticeKind::PlaylistStarted, "First"),
            notice(NoticeKind::VideoStarted, "One"),
            notice(NoticeKind::VideoFailed, "One"),
            notice(NoticeKind::VideoStarted, "Two"),
            notice(NoticeKind::VideoFailed, "Two"),
            notice(NoticeKind::VideoStarted, "Three"),
            notice(NoticeKind::VideoDownloaded, "Three"),
        ]
    );
    assert_eq!(record.result, Ok(()));
}

#[test]
fn a_failed_download_of_a_single_video_is_shown_and_ends_in_success() {
    let url = "https://www.youtube.com/watch?v=abc123";
    let record = run(
        url,
        answers(
            Reply::NoResponse,
            vec![listed("abc123", "T")],
            vec![Invocation::Exited { code: Some(2) }],
        ),
    );
    assert_eq!(record.notices[1], notice(NoticeKind::VideoFailed, "T"));
    assert_eq!(record.result, Ok(()));
}

#[test]
fn a_status_outside_2xx_is_a_metadata_fetch_error_without_invocation() {
    for status in [199, 300, 400, 403, 404, 500] {
        let body = VideoLookup { record: video("abc123", "Test Video"), items: vec![] };
        let reply = Reply::Response { status, body: Some(body) };
        let record = run(
            "https://www.youtube.com/watch?v=abc123",
            answers(Reply::NoResponse, vec![reply], vec![]),
        );
        assert_eq!(record.result, Err(DownloadError::MetadataFetch));
        assert!(record.invocations.is_empty());
        assert!(record.notices.is_empty());
    }
}

#[test]
fn an_unreadable_video_body_is_a_metadata_fetch_error_without_invocation() {
    let reply = Reply::Response { status: 200, body: None };
    let record = run(
        "https://www.youtube.com/watch?v=abc123",
        answers(Reply::NoResponse, vec![reply], vec![]),
    );
    assert_eq!(record.result, Err(DownloadError::MetadataFetch));
    assert!(record.invocations.is_empty());
}

#[test]
fn no_response_to_the_video_lookup_is_a_metadata_fetch_error() {
    let record = run(
        "https://www.youtube.com/watch?v=abc123",
        answers(Reply::NoResponse, vec![Reply::NoResponse], vec![]),
    );
    assert_eq!(record.result, Err(DownloadError::MetadataFetch));
    assert!(record.invocations.is_empty());
}

#[test]
fn a_failed_playlist_lookup_ends_the_run_before_any_item() {
    let url = "https://www.youtube.com/playlist?list=PL42";
    for reply in [
        Reply::NoResponse,
        Reply::Response { status: 200, body: None },
        Reply::Response { status: 404, body: Some(PlaylistItems { items: vec![video("a", "A")] }) },
    ] {
        let record = run(url, answers(reply, vec![], vec![]));
        assert_eq!(record.result, Err(DownloadError::MetadataFetch));
        assert_eq!(record.requests.len(), 1);
        assert!(record.invocations.is_empty());
        assert!(record.notices.is_empty());
    }
}

#[test]
fn an_empty_playlist_is_an_error_of_its_own() {
    let record = run(
        "https://www.youtube.com/playlist?list=PL42",
        answers(playlist(vec![]), vec![], vec![]),
    );
    assert_eq!(record.result, Err(DownloadError::EmptyPlaylist));
    assert_eq!(record.requests.len(), 1);
    assert!(record.invocations.is_empty());
    assert!(record.notices.is_empty());
}

#[test]
fn a_downloader_that_cannot_be_started_ends_the_whole_playlist() {
    let items = vec![video("a1", "First"), video("a2", "Second")];
    let record = run(
        "https://www.youtube.com/playlist?list=PL42",
        answers(playlist(items), vec![listed("a1", "One")], vec![Invocation::NotSpawned]),
    );
    assert_eq!(record.result, Err(DownloadError::Spawn));
    assert_eq!(record.invocations, vec![args_for("https://www.youtube.com/watch?v=a1")]);
    assert_eq!(record.requests.len(), 2);
    assert_eq!(
        record.notices,
        vec![
            notice(NoticeKind::PlaylistStarted, "First"),
            notice(NoticeKind::VideoStarted, "One"),
        ]
    );
}

#[test]
fn a_failed_lookup_of_a_later_item_ends_the_playlist_there() {
    let items = vec![video("a1", "First"), video("a2", "Second"), video("a3", "Third")];
    let record = run(
        "https://www.youtube.com/playlist?list=PL42",
        answers(
            playlist(items),
            vec![listed("a1", "One"), Reply::Response { status: 500, body: None }],
            vec![EXIT_OK],
        ),
    );
    assert_eq!(record.result, Err(DownloadError::MetadataFetch));
    assert_eq!(record.invocations, vec![args_for("https://www.youtube.com/watch?v=a1")]);
    assert_eq!(record.requests.len(), 3);
}

#[test]
fn an_item_is_looked_up_by_the_identifier_of_its_watch_url() {
    let items = vec![video("a=b", "First")];
    let record = run(
        "https://www.youtube.com/playlist?list=PL42",
        answers(playlist(items), vec![listed("b", "B")], vec![EXIT_OK]),
    );
    assert_eq!(record.requests[1], format!("{VIDEOS}b&key=KEY"));
    assert_eq!(record.invocations, vec![args_for("https://www.youtube.com/watch?v=a=b")]);
    assert_eq!(record.result, Ok(()));
}

#[test]
fn a_playlist_url_with_a_video_in_it_goes_the_playlist_path() {
    let step = start("https://www.youtube.com/watch?v=abc&list=playlist7", &config());
    match step.next {
        Next::FetchPlaylist { request_url, .. } => {
            assert_eq!(request_url, format!("{ITEMS}playlist7&key=KEY&part=snippet&maxResults=50"));
        }
        other => panic!("{other:?}"),
    }
}
