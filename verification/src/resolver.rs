//! The identity resolver: from a channel reference to the channel's identifier.
//!
//! Resolution takes at most one request. [`Resolution`] says which, if any;
//! [`channel_from_search`] and [`channel_from_lookup`] read the identifier off
//! the answer.

use crate::endpoints::{search_url, search_url_of, username_lookup_url, username_lookup_url_of};
use crate::error::{accepted_shapes, found_view, Error, ErrorKind, ErrorView};
use crate::reference::{
    is_channel_shape,
    is_handle_shape,
    is_user_shape,
    locate_path,
    url_path,
    Locator,
    LocatorView,
};
use crate::responses::{ChannelItemView, ChannelListResponse, SearchListResponse};
use crate::segments::segments_of;
use vstd::prelude::*;

verus! {

/// What is left to do once the reference has been read.
#[derive(Debug, PartialEq, Eq)]
pub enum Resolution {
    /// Nothing: the reference holds the identifier.
    Known { channel_id: String },
    /// One channel-type search for the handle, at `url`.
    Search { handle: String, url: String },
    /// One channel lookup by the legacy username, at `url`.
    Lookup { username: String, url: String },
}

/// A [`Resolution`] with its texts as sequences of characters.
pub enum ResolutionView {
    Known { channel_id: Seq<char> },
    Search { handle: Seq<char>, url: Seq<char> },
    Lookup { username: Seq<char>, url: Seq<char> },
}

impl View for Resolution {
    type V = ResolutionView;

    open spec fn view(&self) -> ResolutionView {
        match self {
            Resolution::Known { channel_id } => ResolutionView::Known { channel_id: channel_id@ },
            Resolution::Search { handle, url } => ResolutionView::Search {
                handle: handle@,
                url: url@,
            },
            Resolution::Lookup { username, url } => ResolutionView::Lookup {
                username: username@,
                url: url@,
            },
        }
    }
}

impl ResolutionView {
    /// The addresses that resolution sends a request to, in order.
    pub open spec fn requests(self) -> Seq<Seq<char>> {
        match self {
            ResolutionView::Known { .. } => Seq::empty(),
            ResolutionView::Search { url, .. } => seq![url],
            ResolutionView::Lookup { url, .. } => seq![url],
        }
    }
}

/// The views of a planned resolution.
pub open spec fn planned_view(planned: Result<Resolution, Error>) -> Result<
    ResolutionView,
    ErrorView,
> {
    match planned {
        Ok(resolution) => Ok(resolution@),
        Err(error) => Err(error@),
    }
}

/// What a locator leaves to do, with the key that the requests carry.
pub open spec fn plan(api_key: Seq<char>, locator: LocatorView) -> ResolutionView {
    match locator {
        LocatorView::ChannelId(id) => ResolutionView::Known { channel_id: id },
        LocatorView::Handle(handle) => ResolutionView::Search {
            handle,
            url: search_url_of(api_key, handle),
        },
        LocatorView::Username(username) => ResolutionView::Lookup {
            username,
            url: username_lookup_url_of(api_key, username),
        },
    }
}

/// What a URL path leaves to do.
pub open spec fn plan_path(api_key: Seq<char>, path: Seq<char>) -> Result<
    ResolutionView,
    ErrorView,
> {
    match locate_path(path) {
        Ok(locator) => Ok(plan(api_key, locator)),
        Err(error) => Err(error),
    }
}

/// The channel that a search found: that of its first result.
pub open spec fn search_outcome(handle: Seq<char>, found: Seq<Seq<char>>) -> Result<
    Seq<char>,
    ErrorView,
> {
    if found.len() > 0 {
        Ok(found[0])
    } else {
        Err(ErrorView::HandleNotFound(handle))
    }
}

/// The channel that a lookup found: the first of the answer, where the answer
/// gives its identifier.
pub open spec fn lookup_outcome(username: Seq<char>, found: Seq<ChannelItemView>) -> Result<
    Seq<char>,
    ErrorView,
> {
    if found.len() > 0 && found[0].id is Some {
        Ok(found[0].id->0)
    } else {
        Err(ErrorView::UsernameNotFound(username))
    }
}

impl Resolution {
    /// Plans the resolution of a locator.
    pub fn of_locator(api_key: &str, locator: Locator) -> (resolution: Resolution)
        ensures
            resolution@ == plan(api_key@, locator@),
    {
        match locator {
            Locator::ChannelId(id) => Resolution::Known { channel_id: id },
            Locator::Handle(handle) => {
                let url = search_url(api_key, handle.as_str());
                Resolution::Search { handle, url }
            },
            Locator::Username(username) => {
                let url = username_lookup_url(api_key, username.as_str());
                Resolution::Lookup { username, url }
            },
        }
    }

    /// Plans the resolution of a reference whose URL has the path `path`.
    pub fn of_path(api_key: &str, path: &str) -> (planned: Result<Resolution, Error>)
        ensures
            planned_view(planned) == plan_path(api_key@, path@),
    {
        match Locator::from_path(path) {
            Ok(locator) => Ok(Resolution::of_locator(api_key, locator)),
            Err(error) => Err(error),
        }
    }

    /// Plans the resolution of a channel reference. A reference that is no URL
    /// is refused as [`Error::InvalidUrl`]; a URL is judged by its path.
    pub fn of_reference(api_key: &str, reference: &str) -> (planned: Result<Resolution, Error>)
        ensures
            match url_path(reference@) {
                Some(path) => planned_view(planned) == plan_path(api_key@, path),
                None => planned matches Err(Error::InvalidUrl(_)),
            },
    {
        match Locator::from_reference(reference) {
            Ok(locator) => Ok(Resolution::of_locator(api_key, locator)),
            Err(error) => Err(error),
        }
    }
}

/// Reads the channel's identifier off the answer to the search for `handle`.
pub fn channel_from_search(handle: &str, response: &SearchListResponse) -> (resolved: Result<
    String,
    Error,
>)
    ensures
        found_view(resolved) == search_outcome(handle@, response@),
{
    if response.items.len() > 0 {
        Ok(response.items[0].id.channel_id.clone())
    } else {
        Err(Error::HandleNotFound(handle.to_owned()))
    }
}

/// Reads the channel's identifier off the answer to the lookup of `username`.
pub fn channel_from_lookup(username: &str, response: &ChannelListResponse) -> (resolved: Result<
    String,
    Error,
>)
    ensures
        found_view(resolved) == lookup_outcome(username@, response@),
{
    if response.items.len() > 0 {
        if let Some(id) = &response.items[0].id {
            return Ok(id.clone());
        }
    }
    Err(Error::UsernameNotFound(username.to_owned()))
}

/// A path that begins with a handle takes exactly one request, the
/// channel-type search for the handle. The search resolves to the channel of
/// its first result, and without a result to an error of the kind `NotFound`.
pub proof fn lemma_handle_takes_one_search(
    api_key: Seq<char>,
    path: Seq<char>,
    found: Seq<Seq<char>>,
)
    requires
        is_handle_shape(segments_of(path)),
    ensures
        ({
            let handle = segments_of(path)[0].skip(1);
            &&& plan_path(api_key, path) == Ok::<ResolutionView, ErrorView>(
                ResolutionView::Search { handle, url: search_url_of(api_key, handle) },
            )
            &&& plan_path(api_key, path)->Ok_0.requests() == seq![search_url_of(api_key, handle)]
            &&& found.len() > 0 ==> search_outcome(handle, found) == Ok::<Seq<char>, ErrorView>(
                found[0],
            )
            &&& found.len() == 0 ==> search_outcome(handle, found) is Err && search_outcome(
                handle,
                found,
            )->Err_0.kind() == ErrorKind::NotFound
        }),
{
}

/// A path of `channel` and an identifier resolves to that identifier, and
/// takes no request.
pub proof fn lemma_channel_takes_no_request(api_key: Seq<char>, path: Seq<char>)
    requires
        is_channel_shape(segments_of(path)),
    ensures
        plan_path(api_key, path) == Ok::<ResolutionView, ErrorView>(
            ResolutionView::Known { channel_id: segments_of(path)[1] },
        ),
        plan_path(api_key, path)->Ok_0.requests() == Seq::<Seq<char>>::empty(),
{
    reveal_strlit("channel");
}

/// A path of `user` and a name takes exactly one request, the channel lookup
/// by that name. The lookup resolves to the identifier of the first channel
/// of the answer; where the answer is empty, or gives its first channel no
/// identifier, it resolves to an error of the kind `NotFound`.
pub proof fn lemma_user_takes_one_lookup(
    api_key: Seq<char>,
    path: Seq<char>,
    found: Seq<ChannelItemView>,
)
    requires
        is_user_shape(segments_of(path)),
    ensures
        ({
            let username = segments_of(path)[1];
            &&& plan_path(api_key, path) == Ok::<ResolutionView, ErrorView>(
                ResolutionView::Lookup { username, url: username_lookup_url_of(api_key, username) },
            )
            &&& plan_path(api_key, path)->Ok_0.requests() == seq![
                username_lookup_url_of(api_key, username),
            ]
            &&& found.len() > 0 && found[0].id is Some ==> lookup_outcome(username, found) == Ok::<
                Seq<char>,
                ErrorView,
            >(found[0].id->0)
            &&& found.len() == 0 || found[0].id is None ==> lookup_outcome(username, found) is Err
                && lookup_outcome(username, found)->Err_0.kind() == ErrorKind::NotFound
        }),
{
    reveal_strlit("user");
    reveal_strlit("channel");
}

/// A path in none of the three shapes is refused as `UnsupportedFormat`, a
/// path without a segment too. The error is of the kind `InputFormat`, and
/// its message names the accepted shapes. Nothing is planned, and so no
/// request.
pub proof fn lemma_other_shapes_are_refused(api_key: Seq<char>, path: Seq<char>)
    requires
        !is_handle_shape(segments_of(path)),
        !is_channel_shape(segments_of(path)),
        !is_user_shape(segments_of(path)),
    ensures
        plan_path(api_key, path) == Err::<ResolutionView, ErrorView>(ErrorView::UnsupportedFormat),
        ErrorView::UnsupportedFormat.kind() == ErrorKind::InputFormat,
        ErrorView::UnsupportedFormat.message() == accepted_shapes(),
{
}

} // verus!
