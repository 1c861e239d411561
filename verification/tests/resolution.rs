use channel_thumbnails::error::{Error, ErrorKind};
use channel_thumbnails::reference::Locator;
use channel_thumbnails::resolver::{channel_from_lookup, channel_from_search, Resolution};
use channel_thumbnails::responses::{
    ChannelItem, ChannelListResponse, SearchListResponse, SearchResultId, SearchResultItem,
};
use channel_thumbnails::segments::path_segments;

const MOCK_API_KEY: &str = "test_api_key";
const MOCK_CHANNEL_ID: &str = "UC_test_channel_id";
const MOCK_USERNAME: &str = "testuser";
const MOCK_HANDLE: &str = "testhandle";

fn search_response(ids: &[&str]) -> SearchListResponse {
    SearchListResponse {
        items: ids
            .iter()
            .map(|id| SearchResultItem { id: SearchResultId { channel_id: id.to_string() } })
            .collect(),
    }
}

fn channel(id: Option<&str>) -> ChannelItem {
    ChannelItem { id: id.map(|id| id.to_string()), content_details: None }
}

#[test]
fn test_get_channel_id_from_handle_url() {
    let channel_url = format!("http://any.url/@{}", MOCK_HANDLE);
    let planned = Resolution::of_reference(MOCK_API_KEY, &channel_url).unwrap();
    let expected_url = format!(
        "https://www.googleapis.com/youtube/v3/search?part=id&q={}&type=channel&key={}",
        MOCK_HANDLE, MOCK_API_KEY
    );
    assert_eq!(
        planned,
        Resolution::Search { handle: MOCK_HANDLE.to_string(), url: expected_url }
    );
    let result = channel_from_search(MOCK_HANDLE, &search_response(&[MOCK_CHANNEL_ID]));
    assert_eq!(result.unwrap(), MOCK_CHANNEL_ID);
}

#[test]
fn segments_skip_empty_pieces() {
    assert_eq!(path_segments("/channel/UC1"), vec!["channel", "UC1"]);
    assert_eq!(path_segments("//a///b/"), vec!["a", "b"]);
    assert_eq!(path_segments("a/b"), vec!["a", "b"]);
    assert_eq!(path_segments("abc"), vec!["abc"]);
    assert_eq!(path_segments("/"), Vec::<String>::new());
    assert_eq!(path_segments(""), Vec::<String>::new());
    assert_eq!(path_segments("///"), Vec::<String>::new());
}

#[test]
fn splitting_undoes_listing() {
    let parts = vec!["@someone", "videos", "x.y", "a b"];
    let mut path = String::new();
    for part in &parts {
        path.push('/');
        path.push_str(part);
    }
    assert_eq!(path, "/@someone/videos/x.y/a b");
    assert_eq!(path_segments(&path), parts);
}

#[test]
fn every_segment_is_non_empty_and_without_a_slash() {
    for path in ["", "/", "//", "a", "/a", "a/", "/a//b/c///", "@/x/y"] {
        for segment in path_segments(path) {
            assert!(!segment.is_empty());
            assert!(!segment.contains('/'));
        }
    }
}

#[test]
fn segments_count_characters_not_bytes() {
    assert_eq!(path_segments("/caf\u{e9}/\u{4f60}\u{597d}/x"), vec!["caf\u{e9}", "\u{4f60}\u{597d}", "x"]);
}

#[test]
fn locator_reads_the_three_shapes() {
    assert_eq!(Locator::from_path("/@someone"), Ok(Locator::Handle("someone".to_string())));
    assert_eq!(Locator::from_path("/@someone/videos"), Ok(Locator::Handle("someone".to_string())));
    assert_eq!(Locator::from_path("/channel/UC123"), Ok(Locator::ChannelId("UC123".to_string())));
    assert_eq!(Locator::from_path("/channel/UC123/about"), Ok(Locator::ChannelId("UC123".to_string())));
    assert_eq!(Locator::from_path("/user/old_name"), Ok(Locator::Username("old_name".to_string())));
}

#[test]
fn locator_takes_an_empty_handle() {
    assert_eq!(Locator::from_path("/@"), Ok(Locator::Handle(String::new())));
}

#[test]
fn locator_tries_the_handle_first() {
    let parts = vec!["@channel".to_string(), "user".to_string()];
    assert_eq!(Locator::from_segments(&parts), Ok(Locator::Handle("channel".to_string())));
}

#[test]
fn locator_refuses_other_shapes() {
    assert_eq!(Locator::from_path("/"), Err(Error::UnsupportedFormat));
    assert_eq!(Locator::from_path(""), Err(Error::UnsupportedFormat));
    assert_eq!(Locator::from_path("///"), Err(Error::UnsupportedFormat));
    assert_eq!(Locator::from_path("/channel"), Err(Error::UnsupportedFormat));
    assert_eq!(Locator::from_path("/user"), Err(Error::UnsupportedFormat));
    assert_eq!(Locator::from_path("/c/custom"), Err(Error::UnsupportedFormat));
    assert_eq!(Locator::from_path("/watch"), Err(Error::UnsupportedFormat));
    assert_eq!(Locator::from_path("/Channel/UC123"), Err(Error::UnsupportedFormat));
    assert_eq!(Locator::from_path("/x@y/z"), Err(Error::UnsupportedFormat));
}

#[test]
fn locator_from_segments_with_an_empty_first_segment() {
    let parts = vec![String::new(), "x".to_string()];
    assert_eq!(Locator::from_segments(&parts), Err(Error::UnsupportedFormat));
    assert_eq!(Locator::from_segments(&Vec::new()), Err(Error::UnsupportedFormat));
}

#[test]
fn reference_is_judged_by_the_path_of_its_url() {
    assert_eq!(
        Locator::from_reference("https://www.youtube.com/channel/UC123?view=0#top"),
        Ok(Locator::ChannelId("UC123".to_string()))
    );
    assert_eq!(
        Locator::from_reference("https://www.youtube.com/@someone"),
        Ok(Locator::Handle("someone".to_string()))
    );
    assert_eq!(
        Locator::from_reference("https://www.youtube.com/user/old_name"),
        Ok(Locator::Username("old_name".to_string()))
    );
    assert_eq!(
        Locator::from_reference("https://www.youtube.com"),
        Err(Error::UnsupportedFormat)
    );
    assert_eq!(
        Locator::from_reference("https://www.youtube.com/"),
        Err(Error::UnsupportedFormat)
    );
    assert_eq!(
        Locator::from_reference("https://www.youtube.com/playlist?list=PL1"),
        Err(Error::UnsupportedFormat)
    );
}

#[test]
fn reference_that_is_no_url_is_refused() {
    assert_eq!(
        Locator::from_reference("/channel/UC123"),
        Err(Error::InvalidUrl(url::ParseError::RelativeUrlWithoutBase))
    );
    assert_eq!(
        Locator::from_reference("https://"),
        Err(Error::InvalidUrl(url::ParseError::EmptyHost))
    );
    let refused = Resolution::of_reference(MOCK_API_KEY, "not a url").unwrap_err();
    assert!(matches!(refused, Error::InvalidUrl(_)));
    assert_eq!(refused.kind(), ErrorKind::InputFormat);
}

#[test]
fn channel_reference_needs_no_request() {
    let planned = Resolution::of_reference(MOCK_API_KEY, "https://www.youtube.com/channel/UC_test_channel_id");
    assert_eq!(planned, Ok(Resolution::Known { channel_id: MOCK_CHANNEL_ID.to_string() }));
    assert_eq!(
        Resolution::of_path(MOCK_API_KEY, "/channel/UC_test_channel_id"),
        Ok(Resolution::Known { channel_id: MOCK_CHANNEL_ID.to_string() })
    );
}

#[test]
fn user_reference_takes_one_lookup() {
    let planned = Resolution::of_reference(MOCK_API_KEY, "https://www.youtube.com/user/testuser");
    assert_eq!(
        planned,
        Ok(Resolution::Lookup {
            username: MOCK_USERNAME.to_string(),
            url: "https://www.googleapis.com/youtube/v3/channels?part=id&forUsername=testuser&key=test_api_key".to_string(),
        })
    );
    let response = ChannelListResponse { items: vec![channel(Some(MOCK_CHANNEL_ID)), channel(Some("UC_other"))] };
    assert_eq!(channel_from_lookup(MOCK_USERNAME, &response), Ok(MOCK_CHANNEL_ID.to_string()));
}

#[test]
fn unsupported_reference_plans_nothing() {
    let refused = Resolution::of_reference(MOCK_API_KEY, "https://www.youtube.com/c/custom").unwrap_err();
    assert_eq!(refused, Error::UnsupportedFormat);
    assert_eq!(refused.kind(), ErrorKind::InputFormat);
    let refused = Resolution::of_path(MOCK_API_KEY, "/").unwrap_err();
    assert_eq!(refused, Error::UnsupportedFormat);
    assert_eq!(refused.kind(), ErrorKind::InputFormat);
}

#[test]
fn search_takes_the_first_result() {
    let response = search_response(&["UC_first", "UC_second", "UC_third"]);
    assert_eq!(channel_from_search(MOCK_HANDLE, &response), Ok("UC_first".to_string()));
}

#[test]
fn search_without_result_is_not_found() {
    let missing = channel_from_search(MOCK_HANDLE, &search_response(&[])).unwrap_err();
    assert_eq!(missing, Error::HandleNotFound(MOCK_HANDLE.to_string()));
    assert_eq!(missing.kind(), ErrorKind::NotFound);
}

#[test]
fn lookup_without_result_is_not_found() {
    let response = ChannelListResponse { items: Vec::new() };
    let missing = channel_from_lookup(MOCK_USERNAME, &response).unwrap_err();
    assert_eq!(missing, Error::UsernameNotFound(MOCK_USERNAME.to_string()));
    assert_eq!(missing.kind(), ErrorKind::NotFound);
}

#[test]
fn lookup_reads_only_the_first_channel() {
    let response = ChannelListResponse { items: vec![channel(None), channel(Some(MOCK_CHANNEL_ID))] };
    assert_eq!(
        channel_from_lookup(MOCK_USERNAME, &response),
        Err(Error::UsernameNotFound(MOCK_USERNAME.to_string()))
    );
}

#[test]
fn resolution_of_a_locator() {
    assert_eq!(
        Resolution::of_locator("k", Locator::ChannelId("UC1".to_string())),
        Resolution::Known { channel_id: "UC1".to_string() }
    );
    assert_eq!(
        Resolution::of_locator("k", Locator::Handle("h".to_string())),
        Resolution::Search {
            handle: "h".to_string(),
            url: "https://www.googleapis.com/youtube/v3/search?part=id&q=h&type=channel&key=k".to_string(),
        }
    );
    assert_eq!(
        Resolution::of_locator("k", Locator::Username("u".to_string())),
        Resolution::Lookup {
            username: "u".to_string(),
            url: "https://www.googleapis.com/youtube/v3/channels?part=id&forUsername=u&key=k".to_string(),
        }
    );
}

#[test]
fn error_messages() {
    assert_eq!(
        Error::UnsupportedFormat.message(),
        "Unsupported YouTube channel URL format. Please use a URL like https://www.youtube.com/@handle, https://www.youtube.com/channel/ID, or https://www.youtube.com/user/username"
    );
    assert_eq!(
        Error::HandleNotFound("someone".to_string()).message(),
        "Could not find a channel ID for handle: someone"
    );
    assert_eq!(
        Error::UsernameNotFound("old_name".to_string()).message(),
        "Could not find a channel ID for username: old_name"
    );
    assert_eq!(Error::UploadsNotFound.message(), "Could not find uploads playlist for the channel.");
    assert_eq!(Error::Upstream("connection reset".to_string()).message(), "connection reset");
    assert_eq!(
        Error::InvalidUrl(url::ParseError::EmptyHost).message(),
        Error::UnsupportedFormat.message()
    );
}

#[test]
fn every_refused_reference_names_the_accepted_shapes() {
    let refused = [
        "https://www.youtube.com",
        "https://www.youtube.com/",
        "https://www.youtube.com/channel",
        "https://www.youtube.com/user",
        "https://www.youtube.com/c/Name",
        "https://www.youtube.com/watch?v=abc",
        "youtube.com/@someone",
        "not a url",
        "",
    ];
    for reference in refused {
        let error = Resolution::of_reference(MOCK_API_KEY, reference).unwrap_err();
        assert_eq!(error.kind(), ErrorKind::InputFormat);
        let message = error.message();
        assert!(message.contains("https://www.youtube.com/@handle"));
        assert!(message.contains("https://www.youtube.com/channel/ID"));
        assert!(message.contains("https://www.youtube.com/user/username"));
    }
}

#[test]
fn error_kinds() {
    assert_eq!(Error::InvalidUrl(url::ParseError::EmptyHost).kind(), ErrorKind::InputFormat);
    assert_eq!(Error::UnsupportedFormat.kind(), ErrorKind::InputFormat);
    assert_eq!(Error::HandleNotFound("h".to_string()).kind(), ErrorKind::NotFound);
    assert_eq!(Error::UsernameNotFound("u".to_string()).kind(), ErrorKind::NotFound);
    assert_eq!(Error::UploadsNotFound.kind(), ErrorKind::NotFound);
    assert_eq!(Error::Upstream("x".to_string()).kind(), ErrorKind::Upstream);
}
