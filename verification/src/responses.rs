//! The answers of the upstream API, as far as a run reads them.
//!
//! Each type has the shape of the JSON object that it stands for. A field
//! that the API may leave out is an `Option`.

use crate::text::optional_text;
use vstd::prelude::*;

verus! {

/// The identifier part of a search result.
#[derive(Debug)]
pub struct SearchResultId {
    pub channel_id: String,
}

/// One result of a search.
#[derive(Debug)]
pub struct SearchResultItem {
    pub id: SearchResultId,
}

/// The answer to a channel-type search. Its view is the channel identifiers
/// of its results, in the order of the answer.
#[derive(Debug)]
pub struct SearchListResponse {
    pub items: Vec<SearchResultItem>,
}

impl View for SearchListResponse {
    type V = Seq<Seq<char>>;

    open spec fn view(&self) -> Seq<Seq<char>> {
        self.items@.map_values(|item: SearchResultItem| item.id.channel_id@)
    }
}

/// The playlists that belong to a channel.
#[derive(Debug)]
pub struct RelatedPlaylists {
    pub uploads: String,
}

/// The content details of a channel.
#[derive(Debug)]
pub struct ContentDetails {
    pub related_playlists: RelatedPlaylists,
}

/// One channel of a channel lookup.
#[derive(Debug)]
pub struct ChannelItem {
    pub id: Option<String>,
    pub content_details: Option<ContentDetails>,
}

/// What a run reads of a [`ChannelItem`]: its identifier and the identifier
/// of its uploads playlist, each where the answer holds it.
pub struct ChannelItemView {
    pub id: Option<Seq<char>>,
    pub uploads: Option<Seq<char>>,
}

impl View for ChannelItem {
    type V = ChannelItemView;

    open spec fn view(&self) -> ChannelItemView {
        ChannelItemView {
            id: optional_text(self.id),
            uploads: match self.content_details {
                Some(details) => Some(details.related_playlists.uploads@),
                None => None,
            },
        }
    }
}

/// The answer to a channel lookup. Its view is the views of its channels, in
/// the order of the answer.
#[derive(Debug)]
pub struct ChannelListResponse {
    pub items: Vec<ChannelItem>,
}

impl View for ChannelListResponse {
    type V = Seq<ChannelItemView>;

    open spec fn view(&self) -> Seq<ChannelItemView> {
        self.items@.map_values(|item: ChannelItem| item@)
    }
}

/// The content details of a playlist item.
#[derive(Debug)]
pub struct VideoContentDetails {
    pub video_id: String,
}

/// One video of a playlist.
#[derive(Debug)]
pub struct PlaylistItem {
    pub content_details: VideoContentDetails,
}

/// One page of a playlist's items.
#[derive(Debug)]
pub struct PlaylistItemListResponse {
    pub next_page_token: Option<String>,
    pub items: Vec<PlaylistItem>,
}

/// What a run reads of a page: the video identifiers in the order of the
/// answer, and the continuation token where more pages follow.
pub struct PageView {
    pub next_page_token: Option<Seq<char>>,
    pub video_ids: Seq<Seq<char>>,
}

impl View for PlaylistItemListResponse {
    type V = PageView;

    open spec fn view(&self) -> PageView {
        PageView {
            next_page_token: optional_text(self.next_page_token),
            video_ids: self.items@.map_values(|item: PlaylistItem| item.content_details.video_id@),
        }
    }
}

} // verus!
