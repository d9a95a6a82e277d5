//! The error type and what can be asked of it.

use crate::cause::{BoxError, Cause};
use crate::decimal::{decimal, decimal_string};
use crate::quote::{debug_quoted, quote};
use vstd::prelude::*;
use vstd::string::StringExecFns;

verus! {

/// A failure met while reading a multipart stream, or in the operations
/// around it. The set of variants may grow.
#[non_exhaustive]
pub enum ParseError {
    /// A field arrived whose name the caller's constraints do not allow.
    UnknownField { field_name: Option<String> },
    /// The data of a field ended before its closing boundary.
    IncompleteFieldData { field_name: Option<String> },
    /// The headers of a field ended before the blank line that closes them.
    IncompleteHeaders,
    /// The header tokenizer rejected the bytes.
    ReadHeaderFailed(httparse::Error),
    /// The raw name of a field header is no valid header name.
    DecodeHeaderName { name: String, cause: BoxError },
    /// The raw value of a field header is no valid header value. The bytes
    /// are kept for the caller; the message never shows them.
    DecodeHeaderValue { value: Vec<u8>, cause: BoxError },
    /// The stream ended before its closing boundary.
    IncompleteStream,
    /// A field grew beyond the size allowed for it.
    FieldSizeExceeded { limit: u64, field_name: Option<String> },
    /// The stream grew beyond the size allowed for it.
    StreamSizeExceeded { limit: u64 },
    /// The byte source reported a failure.
    StreamReadFailed(BoxError),
    /// The shared state of the reader could not be locked.
    LockFailure,
    /// The content type is not `multipart/form-data`.
    NoMultipart,
    /// The content type is no valid media type.
    DecodeContentType(mime::FromStrError),
    /// The content type names no boundary.
    NoBoundary,
    /// The content type names more than one boundary.
    MultipleBoundaries,
    /// The data of a field is no valid JSON. Only a reader that decodes
    /// fields as JSON produces this.
    DecodeJson(serde_json::Error),
}

/// The text that a message shows in place of a name that is not known.
pub open spec fn placeholder() -> Seq<char> {
    "<unknown>"@
}

/// The name to show for a field whose name may be unknown.
pub open spec fn name_or_placeholder(field_name: Option<String>) -> Seq<char> {
    match field_name {
        Some(name) => name@,
        None => placeholder(),
    }
}

impl ParseError {
    /// The name that the message of this error shows, where its variant
    /// shows one: the name of the field, or the placeholder where that is
    /// unknown, or the raw header name.
    pub open spec fn subject(&self) -> Option<Seq<char>> {
        match self {
            ParseError::UnknownField { field_name } => Some(name_or_placeholder(*field_name)),
            ParseError::IncompleteFieldData { field_name } => Some(
                name_or_placeholder(*field_name),
            ),
            ParseError::FieldSizeExceeded { field_name, .. } => Some(
                name_or_placeholder(*field_name),
            ),
            ParseError::DecodeHeaderName { name, .. } => Some(name@),
            _ => None,
        }
    }

    /// The message of this error with `quoted` in the place of the quoted
    /// name. A variant that shows no name has a fixed message, or one that
    /// holds only its limit.
    pub open spec fn message_with(&self, quoted: Seq<char>) -> Seq<char> {
        match self {
            ParseError::UnknownField { .. } => "unknown field received: "@ + quoted,
            ParseError::IncompleteFieldData { .. } => "field "@ + quoted
                + " received with incomplete data"@,
            ParseError::IncompleteHeaders => "failed to read field complete headers"@,
            ParseError::ReadHeaderFailed(_) => "failed to read headers"@,
            ParseError::DecodeHeaderName { .. } => "failed to decode field's raw header name: "@
                + quoted,
            ParseError::DecodeHeaderValue { .. } => "failed to decode field's raw header value"@,
            ParseError::IncompleteStream => "incomplete multipart stream"@,
            ParseError::FieldSizeExceeded { limit, .. } => "field "@ + quoted
                + " exceeded the size limit: "@ + decimal(*limit as nat) + " bytes"@,
            ParseError::StreamSizeExceeded { limit } => "stream size exceeded limit: "@ + decimal(
                *limit as nat,
            ) + " bytes"@,
            ParseError::StreamReadFailed(_) => "failed to read stream"@,
            ParseError::LockFailure => "failed to lock multipart state"@,
            ParseError::NoMultipart => "Content-Type is not multipart/form-data"@,
            ParseError::DecodeContentType(_) => "failed to decode Content-Type"@,
            ParseError::NoBoundary => "multipart boundary not found in Content-Type"@,
            ParseError::MultipleBoundaries =>
                "multipart boundary found multiple times in Content-Type"@,
            ParseError::DecodeJson(_) => "failed to decode field data as JSON"@,
        }
    }

    /// The message of this error: the variant's phrase, with the quoted name
    /// where the variant shows one and the limit in decimal where it has
    /// one. Neither the wrapped failure nor the raw bytes of a header value
    /// are part of it.
    pub open spec fn message(&self) -> Seq<char> {
        match self.subject() {
            Some(name) => self.message_with(debug_quoted(name)),
            None => self.message_with(Seq::empty()),
        }
    }

    /// Whether the variant of this error wraps the failure that led to it.
    pub open spec fn wraps_failure(&self) -> bool {
        ||| self is ReadHeaderFailed
        ||| self is DecodeHeaderName
        ||| self is DecodeHeaderValue
        ||| self is StreamReadFailed
        ||| self is DecodeContentType
        ||| self is DecodeJson
    }

    /// The failure that this error wraps, where its variant wraps one.
    pub open spec fn cause(&self) -> Option<Cause<'_>> {
        match self {
            ParseError::ReadHeaderFailed(e) => Some(Cause::Header(e)),
            ParseError::DecodeHeaderName { cause, .. } => Some(Cause::Boxed(cause)),
            ParseError::DecodeHeaderValue { cause, .. } => Some(Cause::Boxed(cause)),
            ParseError::StreamReadFailed(e) => Some(Cause::Boxed(e)),
            ParseError::DecodeContentType(e) => Some(Cause::ContentType(e)),
            ParseError::DecodeJson(e) => Some(Cause::Json(e)),
            ParseError::UnknownField { .. }
            | ParseError::IncompleteFieldData { .. }
            | ParseError::IncompleteHeaders
            | ParseError::IncompleteStream
            | ParseError::FieldSizeExceeded { .. }
            | ParseError::StreamSizeExceeded { .. }
            | ParseError::LockFailure
            | ParseError::NoMultipart
            | ParseError::NoBoundary
            | ParseError::MultipleBoundaries => None,
        }
    }

    /// The name that the message shows, where the variant shows one.
    pub fn subject_name(&self) -> (found: Option<&str>)
        ensures
            match found {
                Some(name) => self.subject() == Some(name@),
                None => self.subject() is None,
            },
    {
        match self {
            ParseError::UnknownField { field_name }
            | ParseError::IncompleteFieldData { field_name }
            | ParseError::FieldSizeExceeded { field_name, .. } => match field_name {
                Some(name) => Some(name.as_str()),
                None => Some("<unknown>"),
            },
            ParseError::DecodeHeaderName { name, .. } => Some(name.as_str()),
            _ => None,
        }
    }

    /// Writes the message with `quoted` in the place of the quoted name.
    pub fn render_with(&self, quoted: &str) -> (text: String)
        ensures
            text@ == self.message_with(quoted@),
    {
        match self {
            ParseError::UnknownField { .. } => {
                let mut text = String::from_str("unknown field received: ");
                text.append(quoted);
                text
            },
            ParseError::IncompleteFieldData { .. } => {
                let mut text = String::from_str("field ");
                text.append(quoted);
                text.append(" received with incomplete data");
                text
            },
            ParseError::DecodeHeaderName { .. } => {
                let mut text = String::from_str("failed to decode field's raw header name: ");
                text.append(quoted);
                text
            },
            ParseError::DecodeHeaderValue { .. } => String::from_str(
                "failed to decode field's raw header value",
            ),
            ParseError::FieldSizeExceeded { limit, .. } => {
                let digits = decimal_string(*limit);
                let mut text = String::from_str("field ");
                text.append(quoted);
                text.append(" exceeded the size limit: ");
                text.append(digits.as_str());
                text.append(" bytes");
                text
            },
            ParseError::StreamSizeExceeded { limit } => {
                let digits = decimal_string(*limit);
                let mut text = String::from_str("stream size exceeded limit: ");
                text.append(digits.as_str());
                text.append(" bytes");
                text
            },
            ParseError::ReadHeaderFailed(_) => String::from_str("failed to read headers"),
            ParseError::StreamReadFailed(_) => String::from_str("failed to read stream"),
            ParseError::DecodeContentType(_) => String::from_str("failed to decode Content-Type"),
            ParseError::IncompleteHeaders => String::from_str(
                "failed to read field complete headers",
            ),
            ParseError::IncompleteStream => String::from_str("incomplete multipart stream"),
            ParseError::LockFailure => String::from_str("failed to lock multipart state"),
            ParseError::NoMultipart => String::from_str("Content-Type is not multipart/form-data"),
            ParseError::NoBoundary => String::from_str(
                "multipart boundary not found in Content-Type",
            ),
            ParseError::MultipleBoundaries => String::from_str(
                "multipart boundary found multiple times in Content-Type",
            ),
            ParseError::DecodeJson(_) => String::from_str("failed to decode field data as JSON"),
        }
    }

    /// Writes the message of this error.
    pub fn render(&self) -> (text: String)
        ensures
            text@ == self.message(),
    {
        match self.subject_name() {
            Some(name) => {
                let quoted = quote(name);
                self.render_with(quoted.as_str())
            },
            None => self.render_with(""),
        }
    }

    /// Writes the debug form of this error, which is its message: what is
    /// logged never differs from what is shown.
    pub fn render_debug(&self) -> (text: String)
        ensures
            text@ == self.message(),
    {
        self.render()
    }

    /// Whether this error and `other` have the same message. Errors are
    /// compared by nothing else: two errors of different variants or with
    /// different causes are equal where their messages happen to agree.
    pub fn equals(&self, other: &ParseError) -> (same: bool)
        ensures
            same <==> self.message() == other.message(),
    {
        let mine = self.render();
        let theirs = other.render();
        mine == theirs
    }

    /// The next link of the causal chain: the wrapped failure, borrowed from
    /// this error, or `None` where the variant wraps nothing.
    pub fn source(&self) -> (found: Option<Cause<'_>>)
        ensures
            found == self.cause(),
            found is Some <==> self.wraps_failure(),
    {
        match self {
            ParseError::ReadHeaderFailed(e) => Some(Cause::Header(e)),
            ParseError::DecodeHeaderName { cause, .. } => Some(Cause::Boxed(cause)),
            ParseError::DecodeHeaderValue { cause, .. } => Some(Cause::Boxed(cause)),
            ParseError::StreamReadFailed(e) => Some(Cause::Boxed(e)),
            ParseError::DecodeContentType(e) => Some(Cause::ContentType(e)),
            ParseError::DecodeJson(e) => Some(Cause::Json(e)),
            ParseError::UnknownField { .. }
            | ParseError::IncompleteFieldData { .. }
            | ParseError::IncompleteHeaders
            | ParseError::IncompleteStream
            | ParseError::FieldSizeExceeded { .. }
            | ParseError::StreamSizeExceeded { .. }
            | ParseError::LockFailure
            | ParseError::NoMultipart
            | ParseError::NoBoundary
            | ParseError::MultipleBoundaries => None,
        }
    }
}

impl PartialEq for ParseError {
    /// `==` on errors is [`ParseError::equals`].
    fn eq(&self, other: &ParseError) -> (same: bool) {
        self.equals(other)
    }
}

impl Eq for ParseError {

}

impl vstd::std_specs::cmp::PartialEqSpecImpl for ParseError {
    open spec fn obeys_eq_spec() -> bool {
        true
    }

    open spec fn eq_spec(&self, other: &ParseError) -> bool {
        self.message() == other.message()
    }
}

} // verus!
