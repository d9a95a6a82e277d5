//! The failures that a [`ParseError`](crate::error::ParseError) can wrap.

use vstd::prelude::*;

verus! {

/// `httparse::Error`, the failure of the header tokenizer, as a value that is
/// carried and never looked into.
#[verifier::external_type_specification]
#[verifier::external_body]
pub struct ExHeaderParseError(httparse::Error);

/// `mime::FromStrError`, the failure of parsing a media type, as a value that
/// is carried and never looked into.
#[verifier::external_type_specification]
#[verifier::external_body]
pub struct ExMimeParseError(mime::FromStrError);

/// `serde_json::Error`, the failure of decoding JSON, as a value that is
/// carried and never looked into.
#[verifier::external_type_specification]
#[verifier::external_body]
pub struct ExJsonError(serde_json::Error);

/// An owned failure of any type that can be described and chained, with its
/// type erased, so that unrelated producers can hand in their own failures.
///
/// The verifier does not take a trait object with marker traits, so the box
/// is carried as a value that is never looked into.
#[verifier::external_body]
pub struct BoxError(pub Box<dyn std::error::Error + Send + Sync>);

/// A borrowed view of the failure that an error wraps. The borrow lasts as
/// long as the error that owns the failure.
#[derive(Clone, Copy)]
pub enum Cause<'a> {
    /// The header tokenizer's failure.
    Header(&'a httparse::Error),
    /// A type-erased failure of a producer.
    Boxed(&'a BoxError),
    /// The media type parser's failure.
    ContentType(&'a mime::FromStrError),
    /// The JSON decoder's failure.
    Json(&'a serde_json::Error),
}

} // verus!
