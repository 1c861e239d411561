//! The playlist enumerator: from a channel to the identifiers of its videos.
//!
//! First the channel's details name its uploads playlist
//! ([`uploads_playlist_id`]). Then the playlist is read page by page: an
//! [`Enumeration`] says which page is owed, takes the page, and says whether
//! another one follows.

use crate::endpoints::{playlist_page_url, playlist_page_url_of};
use crate::error::{found_view, Error, ErrorView};
use crate::responses::{
    ChannelItemView,
    ChannelListResponse,
    PageView,
    PlaylistItem,
    PlaylistItemListResponse,
};
use crate::text::{optional_text, texts};
use vstd::prelude::*;

verus! {

/// The uploads playlist that a channel lookup names: that of the first
/// channel of the answer, where the answer gives its content details.
pub open spec fn uploads_outcome(found: Seq<ChannelItemView>) -> Result<Seq<char>, ErrorView> {
    if found.len() > 0 && found[0].uploads is Some {
        Ok(found[0].uploads->0)
    } else {
        Err(ErrorView::UploadsNotFound)
    }
}

/// Reads the identifier of the uploads playlist off a channel's details.
pub fn uploads_playlist_id(response: &ChannelListResponse) -> (found: Result<String, Error>)
    ensures
        found_view(found) == uploads_outcome(response@),
{
    if response.items.len() > 0 {
        if let Some(details) = &response.items[0].content_details {
            return Ok(details.related_playlists.uploads.clone());
        }
    }
    Err(Error::UploadsNotFound)
}

/// A playlist that is being read, with a page owed: the first while
/// `page_token` is `None`, else the one that the token stands for.
#[derive(Debug, PartialEq, Eq)]
pub struct Enumeration {
    pub api_key: String,
    pub playlist_id: String,
    /// The identifiers of the pages read so far, in the order they came.
    pub video_ids: Vec<String>,
    pub page_token: Option<String>,
}

/// An [`Enumeration`] with its texts as sequences of characters.
pub struct EnumerationView {
    pub api_key: Seq<char>,
    pub playlist_id: Seq<char>,
    pub video_ids: Seq<Seq<char>>,
    pub page_token: Option<Seq<char>>,
}

impl View for Enumeration {
    type V = EnumerationView;

    open spec fn view(&self) -> EnumerationView {
        EnumerationView {
            api_key: self.api_key@,
            playlist_id: self.playlist_id@,
            video_ids: texts(self.video_ids@),
            page_token: optional_text(self.page_token),
        }
    }
}

/// Where an enumeration stands once a page has been taken.
#[derive(Debug, PartialEq, Eq)]
pub enum Progress {
    /// The page named a successor: that page is owed now.
    More(Enumeration),
    /// The page was the last: these are the videos of the playlist.
    Done(Vec<String>),
}

/// A [`Progress`] with its texts as sequences of characters.
pub enum ProgressView {
    More(EnumerationView),
    Done(Seq<Seq<char>>),
}

impl View for Progress {
    type V = ProgressView;

    open spec fn view(&self) -> ProgressView {
        match self {
            Progress::More(enumeration) => ProgressView::More(enumeration@),
            Progress::Done(video_ids) => ProgressView::Done(texts(video_ids@)),
        }
    }
}

impl EnumerationView {
    /// The enumeration that has read nothing yet.
    pub open spec fn start(api_key: Seq<char>, playlist_id: Seq<char>) -> EnumerationView {
        EnumerationView { api_key, playlist_id, video_ids: Seq::empty(), page_token: None }
    }

    /// The address of the page that is owed.
    pub open spec fn request(self) -> Seq<char> {
        playlist_page_url_of(self.api_key, self.playlist_id, self.page_token)
    }

    /// Takes a page: its videos follow those read before, and its token, if
    /// it has one, names the page that is owed next.
    pub open spec fn accept(self, page: PageView) -> ProgressView {
        let video_ids = self.video_ids + page.video_ids;
        match page.next_page_token {
            Some(token) => ProgressView::More(
                EnumerationView { video_ids, page_token: Some(token), ..self },
            ),
            None => ProgressView::Done(video_ids),
        }
    }
}

impl Enumeration {
    /// Begins to read the playlist `playlist_id`.
    pub fn start(api_key: &str, playlist_id: &str) -> (enumeration: Enumeration)
        ensures
            enumeration@ == EnumerationView::start(api_key@, playlist_id@),
    {
        let enumeration = Enumeration {
            api_key: api_key.to_owned(),
            playlist_id: playlist_id.to_owned(),
            video_ids: Vec::new(),
            page_token: None,
        };
        assert(enumeration@.video_ids =~= Seq::empty());
        enumeration
    }

    /// The address of the page that is owed.
    pub fn request(&self) -> (url: String)
        ensures
            url@ == self@.request(),
    {
        match &self.page_token {
            Some(token) => playlist_page_url(
                self.api_key.as_str(),
                self.playlist_id.as_str(),
                Some(token.as_str()),
            ),
            None => playlist_page_url(self.api_key.as_str(), self.playlist_id.as_str(), None),
        }
    }

    /// Takes the page that was owed.
    pub fn accept(self, page: PlaylistItemListResponse) -> (progress: Progress)
        ensures
            progress@ == self@.accept(page@),
    {
        let Enumeration { api_key, playlist_id, video_ids, page_token: _ } = self;
        let PlaylistItemListResponse { next_page_token, items } = page;
        let mut video_ids = video_ids;
        let ghost before = texts(video_ids@);
        let ghost added = items@.map_values(|item: PlaylistItem| item.content_details.video_id@);
        for item in rest: items
            invariant
                added == items@.map_values(|item: PlaylistItem| item.content_details.video_id@),
                texts(video_ids@) == before + added.take(rest.index() as int),
        {
            proof {
                assert(texts(video_ids@.push(item.content_details.video_id)) == texts(
                    video_ids@,
                ).push(item.content_details.video_id@));
            }
            video_ids.push(item.content_details.video_id);
        }
        assert(added.take(added.len() as int) == added);
        match next_page_token {
            Some(token) => Progress::More(
                Enumeration { api_key, playlist_id, video_ids, page_token: Some(token) },
            ),
            None => Progress::Done(video_ids),
        }
    }
}

/// What reading a playlist comes to.
pub struct Reading {
    /// The addresses that a request went to, in order.
    pub requests: Seq<Seq<char>>,
    /// The videos of the playlist, once the last page has been read.
    pub video_ids: Option<Seq<Seq<char>>>,
}

impl EnumerationView {
    /// Reads on while the upstream answers with `pages`, one page to each
    /// request: every page that is owed is asked for, and the first page
    /// without a token ends the reading.
    pub open spec fn read(self, pages: Seq<PageView>) -> Reading
        decreases pages.len(),
    {
        if pages.len() == 0 {
            Reading { requests: Seq::empty(), video_ids: None }
        } else {
            match self.accept(pages[0]) {
                ProgressView::Done(video_ids) => Reading {
                    requests: seq![self.request()],
                    video_ids: Some(video_ids),
                },
                ProgressView::More(next) => {
                    let rest = next.read(pages.skip(1));
                    Reading {
                        requests: seq![self.request()] + rest.requests,
                        video_ids: rest.video_ids,
                    }
                },
            }
        }
    }
}

/// Whether every page but the last names a successor, and the last none.
pub open spec fn is_chain(pages: Seq<PageView>) -> bool {
    &&& pages.len() > 0
    &&& forall|i: int| 0 <= i < pages.len() - 1 ==> (#[trigger] pages[i]).next_page_token is Some
    &&& pages.last().next_page_token is None
}

/// The videos of all the pages, page after page.
pub open spec fn gathered(pages: Seq<PageView>) -> Seq<Seq<char>>
    decreases pages.len(),
{
    if pages.len() == 0 {
        Seq::empty()
    } else {
        pages[0].video_ids + gathered(pages.skip(1))
    }
}

/// The number of videos on all the pages together.
pub open spec fn item_count(pages: Seq<PageView>) -> nat
    decreases pages.len(),
{
    if pages.len() == 0 {
        0
    } else {
        pages[0].video_ids.len() + item_count(pages.skip(1))
    }
}

/// Gathering keeps every video of every page.
proof fn lemma_gathered_len(pages: Seq<PageView>)
    ensures
        gathered(pages).len() == item_count(pages),
    decreases pages.len(),
{
    if pages.len() > 0 {
        lemma_gathered_len(pages.skip(1));
    }
}

/// Reading a chain of pages from any point on: one request to each page, the
/// first for the page that is owed and each later one for the page that the
/// token before it names; the videos of the pages follow those read before.
proof fn lemma_read_chain(enumeration: EnumerationView, pages: Seq<PageView>)
    requires
        is_chain(pages),
    ensures
        ({
            let reading = enumeration.read(pages);
            &&& reading.requests.len() == pages.len()
            &&& reading.requests[0] == enumeration.request()
            &&& forall|i: int|
                1 <= i < pages.len() ==> #[trigger] reading.requests[i] == playlist_page_url_of(
                    enumeration.api_key,
                    enumeration.playlist_id,
                    pages[i - 1].next_page_token,
                )
            &&& reading.video_ids == Some(enumeration.video_ids + gathered(pages))
        }),
    decreases pages.len(),
{
    let reading = enumeration.read(pages);
    let rest = pages.skip(1);
    if pages.len() == 1 {
        assert(gathered(rest) =~= Seq::empty());
    } else {
        let next = enumeration.accept(pages[0])->More_0;
        lemma_chain_tail(pages);
        lemma_read_chain(next, rest);
        assert forall|i: int| 1 <= i < pages.len() implies #[trigger] reading.requests[i]
            == playlist_page_url_of(
            enumeration.api_key,
            enumeration.playlist_id,
            pages[i - 1].next_page_token,
        ) by {
            assert(reading.requests[i] == next.read(rest).requests[i - 1]);
        }
    }
}

/// What follows the first page of a longer chain is a chain.
pub proof fn lemma_chain_tail(pages: Seq<PageView>)
    requires
        is_chain(pages),
        pages.len() > 1,
    ensures
        is_chain(pages.skip(1)),
{
    let rest = pages.skip(1);
    assert(rest.last() == pages.last());
    assert forall|i: int| 0 <= i < rest.len() - 1 implies (#[trigger] rest[i]).next_page_token
        is Some by {
        assert(rest[i] == pages[i + 1]);
    }
}

/// Reading a whole playlist. Where the upstream answers with a chain of
/// pages, the reading sends as many requests as there are pages, in their
/// order: the first for the first page, each later one with the token of the
/// page before it. It ends with the videos of all the pages, page after page
/// and within a page in the order of the answer, as many as the pages hold
/// together.
pub proof fn lemma_pagination(api_key: Seq<char>, playlist_id: Seq<char>, pages: Seq<PageView>)
    requires
        is_chain(pages),
    ensures
        ({
            let reading = EnumerationView::start(api_key, playlist_id).read(pages);
            &&& reading.requests.len() == pages.len()
            &&& reading.requests[0] == playlist_page_url_of(api_key, playlist_id, None)
            &&& forall|i: int|
                1 <= i < pages.len() ==> #[trigger] reading.requests[i] == playlist_page_url_of(
                    api_key,
                    playlist_id,
                    pages[i - 1].next_page_token,
                )
            &&& reading.video_ids == Some(gathered(pages))
            &&& gathered(pages).len() == item_count(pages)
        }),
{
    let enumeration = EnumerationView::start(api_key, playlist_id);
    lemma_read_chain(enumeration, pages);
    lemma_gathered_len(pages);
}

} // verus!
