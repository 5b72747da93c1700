//! Where a manifest is taken from: a web address or a file.

use vstd::prelude::*;
use vstd::string::*;
use crate::text::str_eq;

verus! {

/// The serialization of the URL that `url::Url::parse` makes of `text`, and
/// nothing where it makes none.
pub uninterp spec fn url_serialization(text: Seq<char>) -> Option<Seq<char>>;

/// The scheme of the URL that `url::Url::parse` makes of `text`, as
/// `Url::scheme` gives it.
pub uninterp spec fn url_scheme(text: Seq<char>) -> Seq<char>;

/// Whether the URL that `url::Url::parse` makes of `text` is one that
/// `Url::cannot_be_a_base` says cannot be a base.
pub uninterp spec fn url_cannot_be_a_base(text: Seq<char>) -> bool;

/// What is read off a parsed URL.
#[derive(Debug)]
pub struct ParsedUrl {
    /// The URL as the parser writes it back.
    pub serialization: String,
    /// The scheme, in lower case and without the colon.
    pub scheme: String,
    /// Whether no relative reference can be resolved against the URL.
    pub cannot_be_a_base: bool,
}

/// Parses `text` as an absolute URL.
///
/// Trusted: `url::Url::parse` depends on the text alone. Where it fails
/// nothing is returned; where it succeeds, the three fields are what
/// `Url::as_str`, `Url::scheme` and `Url::cannot_be_a_base` give for the
/// URL, which the three names above stand for.
#[verifier::external_body]
pub(crate) fn parse_url(text: &str) -> (parsed: Option<ParsedUrl>)
    ensures
        match parsed {
            Some(url) => url_serialization(text@) == Some(url.serialization@) && url.scheme@
                == url_scheme(text@) && url.cannot_be_a_base == url_cannot_be_a_base(text@),
            None => url_serialization(text@) is None,
        },
{
    match url::Url::parse(text) {
        Ok(url) => Some(
            ParsedUrl {
                serialization: url.as_str().to_string(),
                scheme: url.scheme().to_string(),
                cannot_be_a_base: url.cannot_be_a_base(),
            },
        ),
        Err(_) => None,
    }
}

/// Where a manifest is taken from.
#[derive(Debug)]
pub enum Location {
    /// A web address, as the parser writes it back.
    Url(String),
    /// A path in the file system, as it was given.
    FilePath(String),
}

/// A location as a value of the model.
pub enum LocationView {
    Url(Seq<char>),
    FilePath(Seq<char>),
}

impl View for Location {
    type V = LocationView;

    open spec fn view(&self) -> LocationView {
        match self {
            Location::Url(address) => LocationView::Url(address@),
            Location::FilePath(path) => LocationView::FilePath(path@),
        }
    }
}

impl Clone for Location {
    fn clone(&self) -> (copy: Location)
        ensures
            copy@ == self@,
    {
        match self {
            Location::Url(address) => Location::Url(address.clone()),
            Location::FilePath(path) => Location::FilePath(path.clone()),
        }
    }
}

/// Why a text names no place to take a manifest from.
#[derive(Debug, Clone, Copy, PartialEq, Eq, Structural)]
pub enum LocationError {
    /// The text is a URL that nothing can be resolved against.
    IncompleteUrl,
    /// The text is neither a web address nor a readable file.
    Unusable,
}

impl LocationError {
    /// The explanation shown to a user.
    pub open spec fn message_text(self) -> Seq<char> {
        match self {
            LocationError::IncompleteUrl => "URL is incomplete"@,
            LocationError::Unusable =>
                "Manifest location must be a valid URL (e.g., http://localhost:8080/manifest) or a readable file path"@,
        }
    }

    /// The explanation shown to a user.
    pub fn message(&self) -> (message: &'static str)
        ensures
            message@ == self.message_text(),
    {
        match self {
            LocationError::IncompleteUrl => "URL is incomplete",
            LocationError::Unusable =>
                "Manifest location must be a valid URL (e.g., http://localhost:8080/manifest) or a readable file path",
        }
    }
}

/// What is read off a parsed URL, as a value of the model.
pub struct ParsedUrlView {
    pub serialization: Seq<char>,
    pub scheme: Seq<char>,
    pub cannot_be_a_base: bool,
}

impl View for ParsedUrl {
    type V = ParsedUrlView;

    open spec fn view(&self) -> ParsedUrlView {
        ParsedUrlView {
            serialization: self.serialization@,
            scheme: self.scheme@,
            cannot_be_a_base: self.cannot_be_a_base,
        }
    }
}

/// The model of what a parser returned.
pub open spec fn parsed_view(parsed: Option<ParsedUrl>) -> Option<ParsedUrlView> {
    match parsed {
        Some(url) => Some(url@),
        None => None,
    }
}

/// What `url::Url::parse` and the accessors make of `text`.
pub open spec fn parsed_text(text: Seq<char>) -> Option<ParsedUrlView> {
    match url_serialization(text) {
        Some(serialization) => Some(
            ParsedUrlView {
                serialization,
                scheme: url_scheme(text),
                cannot_be_a_base: url_cannot_be_a_base(text),
            },
        ),
        None => None,
    }
}

/// The place that `text` names, given what a URL parser makes of it and
/// whether a readable file exists at it as a path.
///
/// A URL that cannot be a base is refused outright. A URL with the scheme
/// `http` or `https` is a web address. Anything else is a file path if
/// such a file can be read, and is refused if not.
pub open spec fn located(text: Seq<char>, parsed: Option<ParsedUrlView>, readable: bool) -> Result<
    LocationView,
    LocationError,
> {
    match parsed {
        Some(url) if url.cannot_be_a_base => Err(LocationError::IncompleteUrl),
        Some(url) if url.scheme == "http"@ || url.scheme == "https"@ => Ok(
            LocationView::Url(url.serialization),
        ),
        _ => if readable {
            Ok(LocationView::FilePath(text))
        } else {
            Err(LocationError::Unusable)
        },
    }
}

/// The model of a result of locating.
pub open spec fn located_view(result: Result<Location, LocationError>) -> Result<
    LocationView,
    LocationError,
> {
    match result {
        Ok(location) => Ok(location@),
        Err(error) => Err(error),
    }
}

impl Location {
    /// Decides what place `manifest_str` names, from what a URL parser
    /// made of it and from whether a readable file exists at it as a path.
    pub fn from_parts(manifest_str: String, parsed: Option<ParsedUrl>, readable: bool) -> (result:
        Result<Location, LocationError>)
        ensures
            located_view(result) == located(manifest_str@, parsed_view(parsed), readable),
    {
        match parsed {
            Some(url) => {
                if url.cannot_be_a_base {
                    return Err(LocationError::IncompleteUrl);
                }
                if str_eq(url.scheme.as_str(), "http") || str_eq(url.scheme.as_str(), "https") {
                    return Ok(Location::Url(url.serialization));
                }
            },
            None => {},
        }
        if readable {
            Ok(Location::FilePath(manifest_str))
        } else {
            Err(LocationError::Unusable)
        }
    }

    /// Decides what place `manifest_str` names. `readable` says whether a
    /// file exists at `manifest_str` as a path and can be opened.
    pub fn parse(manifest_str: String, readable: bool) -> (result: Result<Location, LocationError>)
        ensures
            located_view(result) == located(manifest_str@, parsed_text(manifest_str@), readable),
    {
        let parsed = parse_url(manifest_str.as_str());
        Location::from_parts(manifest_str, parsed, readable)
    }
}

} // verus!
