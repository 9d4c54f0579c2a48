//! Errors of the media source.

use vstd::prelude::*;
use vstd::string::*;

use crate::text::joined;

verus! {

/// [`zbus::Error`], carried through unread.
#[verifier::external_type_specification]
#[verifier::external_body]
pub struct ExZbusError(zbus::Error);

/// [`zbus::zvariant::Error`], carried through unread.
#[verifier::external_type_specification]
#[verifier::external_body]
pub struct ExVariantError(zbus::zvariant::Error);

/// [`zbus::fdo::Error`], carried through unread.
#[verifier::external_type_specification]
#[verifier::external_body]
pub struct ExFdoError(zbus::fdo::Error);

/// [`serde_json::Error`], carried through unread.
#[verifier::external_type_specification]
#[verifier::external_body]
pub struct ExJsonError(serde_json::Error);

/// Errors that can occur when using the media source.
#[derive(Debug, PartialEq, Eq)]
pub enum MediaSourceError {
    /// The requested player was not found or is not currently running.
    PlayerNotFound(String),
    /// Failed to connect to the underlying media service.
    ConnectionError(String),
    /// Failed to parse media information from the system.
    ParseError(String),
    /// The current platform is not supported.
    UnsupportedPlatform,
    /// An internal error occurred.
    InternalError(String),
}

/// What a [`MediaSourceError`] says.
pub enum ErrorModel {
    PlayerNotFound(Seq<char>),
    ConnectionError(Seq<char>),
    ParseError(Seq<char>),
    UnsupportedPlatform,
    InternalError(Seq<char>),
}

impl View for MediaSourceError {
    type V = ErrorModel;

    open spec fn view(&self) -> ErrorModel {
        match self {
            MediaSourceError::PlayerNotFound(s) => ErrorModel::PlayerNotFound(s@),
            MediaSourceError::ConnectionError(s) => ErrorModel::ConnectionError(s@),
            MediaSourceError::ParseError(s) => ErrorModel::ParseError(s@),
            MediaSourceError::UnsupportedPlatform => ErrorModel::UnsupportedPlatform,
            MediaSourceError::InternalError(s) => ErrorModel::InternalError(s@),
        }
    }
}

impl Clone for MediaSourceError {
    fn clone(&self) -> (r: MediaSourceError)
        ensures
            r@ == self@,
    {
        match self {
            MediaSourceError::PlayerNotFound(s) => MediaSourceError::PlayerNotFound(s.clone()),
            MediaSourceError::ConnectionError(s) => MediaSourceError::ConnectionError(s.clone()),
            MediaSourceError::ParseError(s) => MediaSourceError::ParseError(s.clone()),
            MediaSourceError::UnsupportedPlatform => MediaSourceError::UnsupportedPlatform,
            MediaSourceError::InternalError(s) => MediaSourceError::InternalError(s.clone()),
        }
    }
}

/// The text that a reader is shown for an error.
pub open spec fn error_text(error: ErrorModel) -> Seq<char> {
    match error {
        ErrorModel::PlayerNotFound(s) => "Player not found: "@ + s,
        ErrorModel::ConnectionError(s) => "Failed to connect to media service: "@ + s,
        ErrorModel::ParseError(s) => "Failed to parse media information: "@ + s,
        ErrorModel::UnsupportedPlatform => "Platform not supported"@,
        ErrorModel::InternalError(s) => "Internal error: "@ + s,
    }
}

impl MediaSourceError {
    /// The error as text for a reader.
    pub fn to_string(&self) -> (r: String)
        ensures
            r@ == error_text(self@),
    {
        match self {
            MediaSourceError::PlayerNotFound(s) => joined("Player not found: ", s.as_str()),
            MediaSourceError::ConnectionError(s) => joined(
                "Failed to connect to media service: ",
                s.as_str(),
            ),
            MediaSourceError::ParseError(s) => joined(
                "Failed to parse media information: ",
                s.as_str(),
            ),
            MediaSourceError::UnsupportedPlatform => "Platform not supported".to_owned(),
            MediaSourceError::InternalError(s) => joined("Internal error: ", s.as_str()),
        }
    }
}

impl From<zbus::Error> for MediaSourceError {
    /// A failed D-Bus operation is a connection error with the failure's own text.
    fn from(value: zbus::Error) -> (r: MediaSourceError)
        ensures
            r matches MediaSourceError::ConnectionError(s) && to_string_from_display_ensures(
                &value,
                s,
            ),
    {
        MediaSourceError::ConnectionError(value.to_string())
    }
}

impl vstd::std_specs::convert::FromSpecImpl<zbus::Error> for MediaSourceError {
    open spec fn obeys_from_spec() -> bool {
        false
    }

    open spec fn from_spec(v: zbus::Error) -> MediaSourceError {
        arbitrary()
    }
}

impl From<zbus::zvariant::Error> for MediaSourceError {
    /// A value of the wrong shape is a parse error with the failure's own text.
    fn from(value: zbus::zvariant::Error) -> (r: MediaSourceError)
        ensures
            r matches MediaSourceError::ParseError(s) && to_string_from_display_ensures(
                &value,
                s,
            ),
    {
        MediaSourceError::ParseError(value.to_string())
    }
}

impl vstd::std_specs::convert::FromSpecImpl<zbus::zvariant::Error> for MediaSourceError {
    open spec fn obeys_from_spec() -> bool {
        false
    }

    open spec fn from_spec(v: zbus::zvariant::Error) -> MediaSourceError {
        arbitrary()
    }
}

impl From<zbus::fdo::Error> for MediaSourceError {
    /// An error reply of the bus itself is a parse error with the reply's own text.
    fn from(value: zbus::fdo::Error) -> (r: MediaSourceError)
        ensures
            r matches MediaSourceError::ParseError(s) && to_string_from_display_ensures(
                &value,
                s,
            ),
    {
        MediaSourceError::ParseError(value.to_string())
    }
}

impl vstd::std_specs::convert::FromSpecImpl<zbus::fdo::Error> for MediaSourceError {
    open spec fn obeys_from_spec() -> bool {
        false
    }

    open spec fn from_spec(v: zbus::fdo::Error) -> MediaSourceError {
        arbitrary()
    }
}

impl From<serde_json::Error> for MediaSourceError {
    /// Malformed JSON is a parse error with the parser's own text.
    fn from(value: serde_json::Error) -> (r: MediaSourceError)
        ensures
            r matches MediaSourceError::ParseError(s) && to_string_from_display_ensures(
                &value,
                s,
            ),
    {
        MediaSourceError::ParseError(value.to_string())
    }
}

impl vstd::std_specs::convert::FromSpecImpl<serde_json::Error> for MediaSourceError {
    open spec fn obeys_from_spec() -> bool {
        false
    }

    open spec fn from_spec(v: serde_json::Error) -> MediaSourceError {
        arbitrary()
    }
}

/// An error is shown as what failed and then its detail.
pub proof fn errors_show_their_detail(detail: Seq<char>)
    ensures
        error_text(ErrorModel::PlayerNotFound(detail)) == "Player not found: "@ + detail,
        error_text(ErrorModel::ConnectionError(detail)) == "Failed to connect to media service: "@
            + detail,
        error_text(ErrorModel::ParseError(detail)) == "Failed to parse media information: "@
            + detail,
        error_text(ErrorModel::UnsupportedPlatform) == "Platform not supported"@,
        error_text(ErrorModel::InternalError(detail)) == "Internal error: "@ + detail,
{
}

/// An error says its kind and its text.
pub proof fn errors_say_all(text: String)
    ensures
        MediaSourceError::PlayerNotFound(text)@ == ErrorModel::PlayerNotFound(text@),
        MediaSourceError::ConnectionError(text)@ == ErrorModel::ConnectionError(text@),
        MediaSourceError::ParseError(text)@ == ErrorModel::ParseError(text@),
        MediaSourceError::UnsupportedPlatform@ == ErrorModel::UnsupportedPlatform,
        MediaSourceError::InternalError(text)@ == ErrorModel::InternalError(text@),
{
}

} // verus!
