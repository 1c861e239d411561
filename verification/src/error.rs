//! What can end a run before its downloads begin.

use url::ParseError;
use vstd::prelude::*;
use vstd::string::StringExecFns;

verus! {

/// The error of `url`'s parser, carried through as the cause of
/// [`Error::InvalidUrl`]. Nothing is known of its contents here.
#[verifier::external_type_specification]
#[verifier::external_body]
pub struct ExParseError(ParseError);

/// The three families that the errors of a run fall into.
#[derive(Clone, Copy, Debug, PartialEq, Eq, Structural)]
pub enum ErrorKind {
    /// The channel reference has none of the supported shapes.
    InputFormat,
    /// A query was answered, and the answer names nothing.
    NotFound,
    /// A request failed, or its answer could not be read.
    Upstream,
}

/// Why a run stopped.
#[derive(Debug, PartialEq, Eq)]
pub enum Error {
    /// The reference is no URL at all; the parser's error is the cause.
    InvalidUrl(ParseError),
    /// The reference is a URL whose path has none of the supported shapes:
    /// a path without a segment is one.
    UnsupportedFormat,
    /// The search for this handle found no channel.
    HandleNotFound(String),
    /// No channel goes by this legacy username.
    UsernameNotFound(String),
    /// The channel has no content details, and so no uploads playlist.
    UploadsNotFound,
    /// A request failed in transport or decoding; the text is the cause.
    Upstream(String),
}

/// An [`Error`] with its texts as sequences of characters.
pub enum ErrorView {
    InvalidUrl(ParseError),
    UnsupportedFormat,
    HandleNotFound(Seq<char>),
    UsernameNotFound(Seq<char>),
    UploadsNotFound,
    Upstream(Seq<char>),
}

impl View for Error {
    type V = ErrorView;

    open spec fn view(&self) -> ErrorView {
        match self {
            Error::InvalidUrl(cause) => ErrorView::InvalidUrl(*cause),
            Error::UnsupportedFormat => ErrorView::UnsupportedFormat,
            Error::HandleNotFound(handle) => ErrorView::HandleNotFound(handle@),
            Error::UsernameNotFound(username) => ErrorView::UsernameNotFound(username@),
            Error::UploadsNotFound => ErrorView::UploadsNotFound,
            Error::Upstream(cause) => ErrorView::Upstream(cause@),
        }
    }
}

/// The views of an identifier that was looked for: the identifier, or the
/// error in its place.
pub open spec fn found_view(found: Result<String, Error>) -> Result<Seq<char>, ErrorView> {
    match found {
        Ok(id) => Ok(id@),
        Err(error) => Err(error@),
    }
}

/// The line that refuses a reference and names the shapes that are accepted.
pub open spec fn accepted_shapes() -> Seq<char> {
    "Unsupported YouTube channel URL format. Please use a URL like https://www.youtube.com/@handle, https://www.youtube.com/channel/ID, or https://www.youtube.com/user/username"@
}

impl ErrorView {
    /// The family of the error.
    pub open spec fn kind(self) -> ErrorKind {
        match self {
            ErrorView::InvalidUrl(_) | ErrorView::UnsupportedFormat => ErrorKind::InputFormat,
            ErrorView::HandleNotFound(_)
            | ErrorView::UsernameNotFound(_)
            | ErrorView::UploadsNotFound => ErrorKind::NotFound,
            ErrorView::Upstream(_) => ErrorKind::Upstream,
        }
    }

    /// The line that tells a person what went wrong. Every error of the kind
    /// `InputFormat` has the same line, which names the accepted shapes.
    pub open spec fn message(self) -> Seq<char> {
        match self {
            ErrorView::InvalidUrl(_) | ErrorView::UnsupportedFormat => accepted_shapes(),
            ErrorView::HandleNotFound(handle) => "Could not find a channel ID for handle: "@
                + handle,
            ErrorView::UsernameNotFound(username) => "Could not find a channel ID for username: "@
                + username,
            ErrorView::UploadsNotFound => "Could not find uploads playlist for the channel."@,
            ErrorView::Upstream(cause) => cause,
        }
    }
}

/// Every error of the kind `InputFormat` names the accepted shapes,
/// whether the reference is no URL or a URL in none of the shapes.
pub proof fn lemma_input_format_names_shapes(error: ErrorView)
    requires
        error.kind() == ErrorKind::InputFormat,
    ensures
        error.message() == accepted_shapes(),
{
}

impl Error {
    /// The family of the error.
    pub fn kind(&self) -> (kind: ErrorKind)
        ensures
            kind == self@.kind(),
    {
        match self {
            Error::InvalidUrl(_) | Error::UnsupportedFormat => ErrorKind::InputFormat,
            Error::HandleNotFound(_) | Error::UsernameNotFound(_) | Error::UploadsNotFound =>
                ErrorKind::NotFound,
            Error::Upstream(_) => ErrorKind::Upstream,
        }
    }

    /// The line that tells a person what went wrong.
    pub fn message(&self) -> (text: String)
        ensures
            text@ == self@.message(),
    {
        match self {
            Error::InvalidUrl(_) | Error::UnsupportedFormat => String::from_str(
                "Unsupported YouTube channel URL format. Please use a URL like https://www.youtube.com/@handle, https://www.youtube.com/channel/ID, or https://www.youtube.com/user/username",
            ),
            Error::HandleNotFound(handle) => String::from_str(
                "Could not find a channel ID for handle: ",
            ).concat(handle.as_str()),
            Error::UsernameNotFound(username) => String::from_str(
                "Could not find a channel ID for username: ",
            ).concat(username.as_str()),
            Error::UploadsNotFound => String::from_str(
                "Could not find uploads playlist for the channel.",
            ),
            Error::Upstream(cause) => cause.clone(),
        }
    }
}

} // verus!
