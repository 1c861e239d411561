//! Channel references: what a URL says of the channel it points to.

use crate::error::{Error, ErrorView};
use crate::segments::{path_segments, segments_of};
use crate::text::texts;
use reqwest::Url;
use url::ParseError;
use vstd::prelude::*;
use vstd::string::{StrSliceExecFns, StringExecFns};

verus! {

/// The path of the URL that `Url::parse` makes of `reference`, as `Url::path`
/// gives it; `None` where the parser refuses the text.
pub uninterp spec fn url_path(reference: Seq<char>) -> Option<Seq<char>>;

/// Parses `reference` with `reqwest::Url::parse` and copies the result's
/// `Url::path`. The parser's error comes back as it is.
///
/// Trusted: that the path handed back is [`url_path`] of the reference, and
/// that an error means the parser refused it. The parser reads nothing but
/// its argument.
#[verifier::external_body]
fn parse_path(reference: &str) -> (parsed: Result<String, ParseError>)
    ensures
        match parsed {
            Ok(path) => url_path(reference@) == Some(path@),
            Err(_) => url_path(reference@) is None,
        },
{
    match Url::parse(reference) {
        Ok(url) => Ok(url.path().to_string()),
        Err(cause) => Err(cause),
    }
}

/// The way a reference names its channel.
#[derive(Debug, PartialEq, Eq)]
pub enum Locator {
    /// By handle: the first segment is `@` and the handle.
    Handle(String),
    /// By the channel's identifier: `channel`, then the identifier.
    ChannelId(String),
    /// By legacy username: `user`, then the name.
    Username(String),
}

/// A [`Locator`] with its text as a sequence of characters.
pub enum LocatorView {
    Handle(Seq<char>),
    ChannelId(Seq<char>),
    Username(Seq<char>),
}

impl View for Locator {
    type V = LocatorView;

    open spec fn view(&self) -> LocatorView {
        match self {
            Locator::Handle(handle) => LocatorView::Handle(handle@),
            Locator::ChannelId(id) => LocatorView::ChannelId(id@),
            Locator::Username(username) => LocatorView::Username(username@),
        }
    }
}

/// The views of a result of locating.
pub open spec fn located_view(located: Result<Locator, Error>) -> Result<LocatorView, ErrorView> {
    match located {
        Ok(locator) => Ok(locator@),
        Err(error) => Err(error@),
    }
}

/// Whether the segments begin with a handle: a segment that starts with `@`.
pub open spec fn is_handle_shape(parts: Seq<Seq<char>>) -> bool {
    parts.len() >= 1 && parts[0].len() > 0 && parts[0][0] == '@'
}

/// Whether the segments are `channel` and an identifier, with or without
/// more behind them.
pub open spec fn is_channel_shape(parts: Seq<Seq<char>>) -> bool {
    parts.len() >= 2 && parts[0] == "channel"@
}

/// Whether the segments are `user` and a name, with or without more behind
/// them.
pub open spec fn is_user_shape(parts: Seq<Seq<char>>) -> bool {
    parts.len() >= 2 && parts[0] == "user"@
}

/// What the segments of a path say of the channel. The shapes are tried in
/// this order: a handle, a channel identifier, a legacy username. Segments
/// in none of them are refused, and so is a path without a segment.
pub open spec fn locate(parts: Seq<Seq<char>>) -> Result<LocatorView, ErrorView> {
    if is_handle_shape(parts) {
        Ok(LocatorView::Handle(parts[0].skip(1)))
    } else if is_channel_shape(parts) {
        Ok(LocatorView::ChannelId(parts[1]))
    } else if is_user_shape(parts) {
        Ok(LocatorView::Username(parts[1]))
    } else {
        Err(ErrorView::UnsupportedFormat)
    }
}

/// What a URL path says of the channel.
pub open spec fn locate_path(path: Seq<char>) -> Result<LocatorView, ErrorView> {
    locate(segments_of(path))
}

impl Locator {
    /// Reads the channel's locator off the segments of a path.
    pub fn from_segments(parts: &Vec<String>) -> (located: Result<Locator, Error>)
        ensures
            located_view(located) == locate(texts(parts@)),
    {
        if parts.len() == 0 {
            return Err(Error::UnsupportedFormat);
        }
        let first = parts[0].as_str();
        if !first.is_empty() && first.get_char(0) == '@' {
            let handle = first.substring_char(1, first.unicode_len()).to_owned();
            return Ok(Locator::Handle(handle));
        }
        if parts.len() >= 2 {
            if parts[0] == String::from_str("channel") {
                return Ok(Locator::ChannelId(parts[1].clone()));
            }
            if parts[0] == String::from_str("user") {
                return Ok(Locator::Username(parts[1].clone()));
            }
        }
        Err(Error::UnsupportedFormat)
    }

    /// Reads the channel's locator off a URL path.
    pub fn from_path(path: &str) -> (located: Result<Locator, Error>)
        ensures
            located_view(located) == locate_path(path@),
    {
        let parts = path_segments(path);
        Locator::from_segments(&parts)
    }

    /// Reads the channel's locator off a reference: the reference is parsed
    /// as a URL, and the URL's path decides.
    pub fn from_reference(reference: &str) -> (located: Result<Locator, Error>)
        ensures
            match url_path(reference@) {
                Some(path) => located_view(located) == locate_path(path),
                None => located matches Err(Error::InvalidUrl(_)),
            },
    {
        match parse_path(reference) {
            Ok(path) => Locator::from_path(path.as_str()),
            Err(cause) => Err(Error::InvalidUrl(cause)),
        }
    }
}

} // verus!
