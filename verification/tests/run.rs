use channel_thumbnails::enumerator::Enumeration;
use channel_thumbnails::error::Error;
use channel_thumbnails::fetcher::{DownloadOutcome, FetchJob};
use channel_thumbnails::orchestrator::{Action, Event, Expect, Run, Step};
use channel_thumbnails::responses::{
    ChannelItem, ChannelListResponse, ContentDetails, PlaylistItem, PlaylistItemListResponse,
    RelatedPlaylists, SearchListResponse, SearchResultId, SearchResultItem, VideoContentDetails,
};

fn search(ids: &[&str]) -> Event {
    Event::Search(SearchListResponse {
        items: ids
            .iter()
            .map(|id| SearchResultItem { id: SearchResultId { channel_id: id.to_string() } })
            .collect(),
    })
}

fn channels(id: Option<&str>, uploads: Option<&str>) -> Event {
    Event::Channels(ChannelListResponse {
        items: vec![ChannelItem {
            id: id.map(|id| id.to_string()),
            content_details: uploads.map(|uploads| ContentDetails {
                related_playlists: RelatedPlaylists { uploads: uploads.to_string() },
            }),
        }],
    })
}

fn page(token: Option<&str>, ids: &[&str]) -> Event {
    Event::Page(PlaylistItemListResponse {
        next_page_token: token.map(|token| token.to_string()),
        items: ids
            .iter()
            .map(|id| PlaylistItem { content_details: VideoContentDetails { video_id: id.to_string() } })
            .collect(),
    })
}

fn get(url: &str, expect: Expect) -> Action {
    Action::Get { url: url.to_string(), expect }
}

fn proceed(step: Step) -> (Run, Action) {
    match step {
        Step::Continue { run, action } => (run, action),
        Step::Finish(result) => panic!("the run is over: {:?}", result),
    }
}

#[test]
fn run_from_a_handle_to_the_end() {
    let (run, action) = proceed(Run::start("KEY", "https://www.youtube.com/@someone"));
    assert_eq!(run, Run::Searching { api_key: "KEY".to_string(), handle: "someone".to_string() });
    assert_eq!(
        action,
        get("https://www.googleapis.com/youtube/v3/search?part=id&q=someone&type=channel&key=KEY", Expect::Search)
    );

    let (run, action) = proceed(run.step(search(&["UC1", "UC2"])));
    assert_eq!(
        run,
        Run::LocatingUploads { api_key: "KEY".to_string(), channel_id: "UC1".to_string() }
    );
    assert_eq!(
        action,
        get("https://www.googleapis.com/youtube/v3/channels?part=contentDetails&id=UC1&key=KEY", Expect::Channels)
    );

    let (run, action) = proceed(run.step(channels(Some("UC1"), Some("UU1"))));
    assert_eq!(run, Run::Enumerating(Enumeration::start("KEY", "UU1")));
    assert_eq!(
        action,
        get("https://www.googleapis.com/youtube/v3/playlistItems?part=contentDetails&playlistId=UU1&key=KEY&maxResults=50", Expect::Page)
    );

    let (run, action) = proceed(run.step(page(Some("T"), &["v1"])));
    assert_eq!(
        action,
        get("https://www.googleapis.com/youtube/v3/playlistItems?part=contentDetails&playlistId=UU1&key=KEY&maxResults=50&pageToken=T", Expect::Page)
    );

    let (run, action) = proceed(run.step(page(None, &["v2"])));
    assert_eq!(run, Run::Fetching);
    assert_eq!(action, Action::Download { jobs: vec![FetchJob::new("v1"), FetchJob::new("v2")] });

    let outcomes = vec![
        DownloadOutcome::Written { path: "out/v1.jpg".to_string() },
        DownloadOutcome::Skipped { status: 404 },
    ];
    let expected = vec![
        DownloadOutcome::Written { path: "out/v1.jpg".to_string() },
        DownloadOutcome::Skipped { status: 404 },
    ];
    assert_eq!(run.step(Event::Fetched(outcomes)), Step::Finish(Ok(expected)));
}

#[test]
fn run_from_a_channel_reference_skips_resolution() {
    let (run, action) = proceed(Run::start("KEY", "https://www.youtube.com/channel/UC9"));
    assert_eq!(
        run,
        Run::LocatingUploads { api_key: "KEY".to_string(), channel_id: "UC9".to_string() }
    );
    assert_eq!(
        action,
        get("https://www.googleapis.com/youtube/v3/channels?part=contentDetails&id=UC9&key=KEY", Expect::Channels)
    );
    let same = Run::start_at_path("KEY", "/channel/UC9");
    assert_eq!(same, Step::Continue { run, action });
}

#[test]
fn run_from_a_username() {
    let (run, action) = proceed(Run::start("KEY", "https://www.youtube.com/user/old_name"));
    assert_eq!(run, Run::LookingUp { api_key: "KEY".to_string(), username: "old_name".to_string() });
    assert_eq!(
        action,
        get("https://www.googleapis.com/youtube/v3/channels?part=id&forUsername=old_name&key=KEY", Expect::Channels)
    );
    let (run, action) = proceed(run.step(channels(Some("UC7"), None)));
    assert_eq!(
        run,
        Run::LocatingUploads { api_key: "KEY".to_string(), channel_id: "UC7".to_string() }
    );
    assert_eq!(
        action,
        get("https://www.googleapis.com/youtube/v3/channels?part=contentDetails&id=UC7&key=KEY", Expect::Channels)
    );
}

#[test]
fn run_ends_on_a_bad_reference_before_any_action() {
    assert_eq!(
        Run::start("KEY", "https://www.youtube.com/c/custom"),
        Step::Finish(Err(Error::UnsupportedFormat))
    );
    assert_eq!(
        Run::start("KEY", "https://www.youtube.com/"),
        Step::Finish(Err(Error::UnsupportedFormat))
    );
    assert_eq!(
        Run::start("KEY", "https://www.youtube.com"),
        Step::Finish(Err(Error::UnsupportedFormat))
    );
    assert_eq!(Run::start_at_path("KEY", ""), Step::Finish(Err(Error::UnsupportedFormat)));
    assert_eq!(
        Run::start("KEY", "youtube.com/@someone"),
        Step::Finish(Err(Error::InvalidUrl(url::ParseError::RelativeUrlWithoutBase)))
    );
    assert_eq!(Run::start_at_path("KEY", "/watch"), Step::Finish(Err(Error::UnsupportedFormat)));
}

#[test]
fn run_ends_where_nothing_is_found() {
    let (run, _) = proceed(Run::start("KEY", "https://www.youtube.com/@someone"));
    assert_eq!(
        run.step(search(&[])),
        Step::Finish(Err(Error::HandleNotFound("someone".to_string())))
    );
    let (run, _) = proceed(Run::start("KEY", "https://www.youtube.com/user/old_name"));
    assert_eq!(
        run.step(channels(None, Some("UU1"))),
        Step::Finish(Err(Error::UsernameNotFound("old_name".to_string())))
    );
    let (run, _) = proceed(Run::start("KEY", "https://www.youtube.com/channel/UC9"));
    assert_eq!(run.step(channels(Some("UC9"), None)), Step::Finish(Err(Error::UploadsNotFound)));
}

#[test]
fn a_failed_request_ends_the_run_in_every_stage_before_the_downloads() {
    let failed = || Event::Failed("connection reset".to_string());
    let upstream = || Step::Finish(Err(Error::Upstream("connection reset".to_string())));

    let run = Run::Searching { api_key: "KEY".to_string(), handle: "h".to_string() };
    assert_eq!(run.step(failed()), upstream());
    let run = Run::LookingUp { api_key: "KEY".to_string(), username: "u".to_string() };
    assert_eq!(run.step(failed()), upstream());
    let run = Run::LocatingUploads { api_key: "KEY".to_string(), channel_id: "UC1".to_string() };
    assert_eq!(run.step(failed()), upstream());

    let (run, _) = proceed(Run::Enumerating(Enumeration::start("KEY", "UU1")).step(page(Some("T"), &["v1"])));
    assert_eq!(run.step(failed()), upstream());
}

#[test]
fn an_answer_of_another_kind_is_an_upstream_error() {
    let unexpected = || Step::Finish(Err(Error::Upstream("unexpected response".to_string())));
    let run = Run::Searching { api_key: "KEY".to_string(), handle: "h".to_string() };
    assert_eq!(run.step(page(None, &["v1"])), unexpected());
    let run = Run::LookingUp { api_key: "KEY".to_string(), username: "u".to_string() };
    assert_eq!(run.step(search(&["UC1"])), unexpected());
    let run = Run::LocatingUploads { api_key: "KEY".to_string(), channel_id: "UC1".to_string() };
    assert_eq!(run.step(Event::Fetched(Vec::new())), unexpected());
    let run = Run::Enumerating(Enumeration::start("KEY", "UU1"));
    assert_eq!(run.step(channels(Some("UC1"), Some("UU1"))), unexpected());
}

#[test]
fn downloads_never_fail_the_run() {
    let outcomes = vec![
        DownloadOutcome::Failed { reason: "disk full".to_string() },
        DownloadOutcome::Skipped { status: 404 },
        DownloadOutcome::Failed { reason: "timed out".to_string() },
    ];
    let expected = vec![
        DownloadOutcome::Failed { reason: "disk full".to_string() },
        DownloadOutcome::Skipped { status: 404 },
        DownloadOutcome::Failed { reason: "timed out".to_string() },
    ];
    assert_eq!(Run::Fetching.step(Event::Fetched(outcomes)), Step::Finish(Ok(expected)));
    assert_eq!(Run::Fetching.step(Event::Fetched(Vec::new())), Step::Finish(Ok(Vec::new())));
    assert_eq!(Run::Fetching.step(Event::Failed("lost".to_string())), Step::Finish(Ok(Vec::new())));
    assert_eq!(Run::Fetching.step(search(&["UC1"])), Step::Finish(Ok(Vec::new())));
}

#[test]
fn a_playlist_without_videos_sends_out_no_download() {
    let run = Run::Enumerating(Enumeration::start("KEY", "UU1"));
    let (run, action) = proceed(run.step(page(None, &[])));
    assert_eq!(run, Run::Fetching);
    assert_eq!(action, Action::Download { jobs: Vec::new() });
}
