//! The addresses of the upstream API and of the image host.
//!
//! Identifiers and the key are put into the addresses as they are, without
//! escaping.

use vstd::prelude::*;
use vstd::string::StringExecFns;

verus! {

/// The address of a channel-type search for `handle`.
pub open spec fn search_url_of(api_key: Seq<char>, handle: Seq<char>) -> Seq<char> {
    "https://www.googleapis.com/youtube/v3/search?part=id&q="@ + handle + "&type=channel&key="@
        + api_key
}

/// The address of a channel lookup by legacy username.
pub open spec fn username_lookup_url_of(api_key: Seq<char>, username: Seq<char>) -> Seq<char> {
    "https://www.googleapis.com/youtube/v3/channels?part=id&forUsername="@ + username + "&key="@
        + api_key
}

/// The address of the content details of a channel.
pub open spec fn channel_details_url_of(api_key: Seq<char>, channel_id: Seq<char>) -> Seq<char> {
    "https://www.googleapis.com/youtube/v3/channels?part=contentDetails&id="@ + channel_id
        + "&key="@ + api_key
}

/// The address of the first page of a playlist's items, fifty to a page.
pub open spec fn first_page_url_of(api_key: Seq<char>, playlist_id: Seq<char>) -> Seq<char> {
    "https://www.googleapis.com/youtube/v3/playlistItems?part=contentDetails&playlistId="@
        + playlist_id + "&key="@ + api_key + "&maxResults=50"@
}

/// The address of a page of a playlist's items: the first page, or the one
/// that a continuation token stands for.
pub open spec fn playlist_page_url_of(
    api_key: Seq<char>,
    playlist_id: Seq<char>,
    page_token: Option<Seq<char>>,
) -> Seq<char> {
    match page_token {
        None => first_page_url_of(api_key, playlist_id),
        Some(token) => first_page_url_of(api_key, playlist_id) + "&pageToken="@ + token,
    }
}

/// The address of a video's cover image in the highest resolution.
pub open spec fn thumbnail_url_of(video_id: Seq<char>) -> Seq<char> {
    "https://img.youtube.com/vi/"@ + video_id + "/maxresdefault.jpg"@
}

/// Builds the address of a channel-type search for `handle`.
pub fn search_url(api_key: &str, handle: &str) -> (url: String)
    ensures
        url@ == search_url_of(api_key@, handle@),
{
    let mut url = String::from_str("https://www.googleapis.com/youtube/v3/search?part=id&q=");
    url.append(handle);
    url.append("&type=channel&key=");
    url.append(api_key);
    url
}

/// Builds the address of a channel lookup by legacy username.
pub fn username_lookup_url(api_key: &str, username: &str) -> (url: String)
    ensures
        url@ == username_lookup_url_of(api_key@, username@),
{
    let mut url = String::from_str(
        "https://www.googleapis.com/youtube/v3/channels?part=id&forUsername=",
    );
    url.append(username);
    url.append("&key=");
    url.append(api_key);
    url
}

/// Builds the address of the content details of a channel.
pub fn channel_details_url(api_key: &str, channel_id: &str) -> (url: String)
    ensures
        url@ == channel_details_url_of(api_key@, channel_id@),
{
    let mut url = String::from_str(
        "https://www.googleapis.com/youtube/v3/channels?part=contentDetails&id=",
    );
    url.append(channel_id);
    url.append("&key=");
    url.append(api_key);
    url
}

/// Builds the address of a page of a playlist's items.
pub fn playlist_page_url(api_key: &str, playlist_id: &str, page_token: Option<&str>) -> (url:
    String)
    ensures
        url@ == playlist_page_url_of(
            api_key@,
            playlist_id@,
            match page_token {
                Some(token) => Some(token@),
                None => None,
            },
        ),
{
    let mut url = String::from_str(
        "https://www.googleapis.com/youtube/v3/playlistItems?part=contentDetails&playlistId=",
    );
    url.append(playlist_id);
    url.append("&key=");
    url.append(api_key);
    url.append("&maxResults=50");
    if let Some(token) = page_token {
        url.append("&pageToken=");
        url.append(token);
    }
    url
}

/// Builds the address of a video's cover image in the highest resolution.
pub fn thumbnail_url(video_id: &str) -> (url: String)
    ensures
        url@ == thumbnail_url_of(video_id@),
{
    let mut url = String::from_str("https://img.youtube.com/vi/");
    url.append(video_id);
    url.append("/maxresdefault.jpg");
    url
}

} // verus!
