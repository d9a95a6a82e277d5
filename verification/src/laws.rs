//! What holds of every error, whatever it carries.

use crate::cause::{BoxError, Cause};
use crate::decimal::{decimal, is_digit, lemma_decimal_is_injective, lemma_decimal_is_numeral};
use crate::error::{name_or_placeholder, ParseError};
use crate::quote::debug_quoted;
use vstd::prelude::*;

verus! {

/// The `len` characters of `text` that begin at `start`.
pub open spec fn run_at(text: Seq<char>, start: int, len: nat) -> Seq<char> {
    text.subrange(start, start + len)
}

/// Whether `part` stands somewhere in `text`, whole and unbroken.
pub open spec fn occurs_in(part: Seq<char>, text: Seq<char>) -> bool {
    exists|start: int|
        0 <= start && start + part.len() <= text.len() && #[trigger] run_at(
            text,
            start,
            part.len(),
        ) == part
}

/// The message of an error does not depend on the failure that it wraps: two
/// errors of one variant that differ in nothing but that failure have the
/// same message, so no text of the failure is part of it.
pub proof fn lemma_message_ignores_cause(
    name: String,
    value: Vec<u8>,
    header: (httparse::Error, httparse::Error),
    boxed: (BoxError, BoxError),
    content_type: (mime::FromStrError, mime::FromStrError),
    json: (serde_json::Error, serde_json::Error),
)
    ensures
        ParseError::ReadHeaderFailed(header.0).message() == ParseError::ReadHeaderFailed(
            header.1,
        ).message(),
        (ParseError::DecodeHeaderName { name, cause: boxed.0 }).message() == (
            ParseError::DecodeHeaderName { name, cause: boxed.1 }
        ).message(),
        (ParseError::DecodeHeaderValue { value, cause: boxed.0 }).message() == (
            ParseError::DecodeHeaderValue { value, cause: boxed.1 }
        ).message(),
        ParseError::StreamReadFailed(boxed.0).message() == ParseError::StreamReadFailed(
            boxed.1,
        ).message(),
        ParseError::DecodeContentType(content_type.0).message() == ParseError::DecodeContentType(
            content_type.1,
        ).message(),
        ParseError::DecodeJson(json.0).message() == ParseError::DecodeJson(json.1).message(),
{
}

/// The raw bytes of a header value never reach the message, however many
/// they are.
pub proof fn lemma_header_value_is_not_shown(first: (Vec<u8>, BoxError), second: (Vec<u8>, BoxError))
    ensures
        (ParseError::DecodeHeaderValue { value: first.0, cause: first.1 }).message() == (
            ParseError::DecodeHeaderValue { value: second.0, cause: second.1 }
        ).message(),
{
}

/// Rendering is repeatable: whatever two calls of `render` return for one
/// error, the two texts are the same.
pub proof fn lemma_render_repeatable(error: ParseError, first: String, second: String)
    requires
        first@ == error.message(),
        second@ == error.message(),
    ensures
        first@ == second@,
{
}

/// Asking for the cause is repeatable: whatever two calls of `source` return
/// for one error, the two answers are the same.
pub proof fn lemma_source_repeatable<'a>(
    error: ParseError,
    first: Option<Cause<'a>>,
    second: Option<Cause<'a>>,
)
    requires
        first == error.cause(),
        second == error.cause(),
    ensures
        first == second,
{
}

/// No error has an empty message.
pub proof fn lemma_message_not_empty(error: ParseError)
    ensures
        error.message().len() > 0,
{
    reveal_strlit("unknown field received: ");
    reveal_strlit("field ");
    reveal_strlit("failed to read field complete headers");
    reveal_strlit("failed to read headers");
    reveal_strlit("failed to decode field's raw header name: ");
    reveal_strlit("failed to decode field's raw header value");
    reveal_strlit("incomplete multipart stream");
    reveal_strlit("stream size exceeded limit: ");
    reveal_strlit("failed to read stream");
    reveal_strlit("failed to lock multipart state");
    reveal_strlit("Content-Type is not multipart/form-data");
    reveal_strlit("failed to decode Content-Type");
    reveal_strlit("multipart boundary not found in Content-Type");
    reveal_strlit("multipart boundary found multiple times in Content-Type");
    reveal_strlit("failed to decode field data as JSON");
}

/// The message keeps the context of the error: where the variant shows a
/// name, the quoted name stands in the message, and where it has a limit,
/// the limit stands there in decimal.
pub proof fn lemma_message_shows_context(error: ParseError)
    ensures
        error.subject() matches Some(name) ==> occurs_in(debug_quoted(name), error.message()),
        error matches ParseError::FieldSizeExceeded { limit, .. } ==> occurs_in(
            decimal(limit as nat),
            error.message(),
        ),
        error matches ParseError::StreamSizeExceeded { limit } ==> occurs_in(
            decimal(limit as nat),
            error.message(),
        ),
{
    let text = error.message();
    match error {
        ParseError::UnknownField { .. } => {
            let quoted = debug_quoted(error.subject()->0);
            let start = "unknown field received: "@.len() as int;
            assert(run_at(text, start, quoted.len()) == quoted);
        },
        ParseError::IncompleteFieldData { .. } => {
            let quoted = debug_quoted(error.subject()->0);
            let start = "field "@.len() as int;
            assert(run_at(text, start, quoted.len()) == quoted);
        },
        ParseError::DecodeHeaderName { .. } => {
            let quoted = debug_quoted(error.subject()->0);
            let start = "failed to decode field's raw header name: "@.len() as int;
            assert(run_at(text, start, quoted.len()) == quoted);
        },
        ParseError::FieldSizeExceeded { limit, .. } => {
            let quoted = debug_quoted(error.subject()->0);
            let digits = decimal(limit as nat);
            let start = "field "@.len() as int;
            assert(run_at(text, start, quoted.len()) == quoted);
            let later = start + quoted.len() + " exceeded the size limit: "@.len();
            assert(run_at(text, later, digits.len()) == digits);
        },
        ParseError::StreamSizeExceeded { limit } => {
            let digits = decimal(limit as nat);
            let start = "stream size exceeded limit: "@.len() as int;
            assert(run_at(text, start, digits.len()) == digits);
        },
        _ => {},
    }
}

/// A text between a fixed head and a fixed tail is determined by the whole.
proof fn lemma_middle_is_determined(
    head: Seq<char>,
    first: Seq<char>,
    second: Seq<char>,
    tail: Seq<char>,
)
    requires
        head + first + tail == head + second + tail,
    ensures
        first == second,
{
    let with_first = head + first + tail;
    let with_second = head + second + tail;
    assert(with_first.len() == with_second.len());
    assert forall|i: int| 0 <= i < first.len() implies first[i] == second[i] by {
        assert(with_first[head.len() + i] == first[i]);
        assert(with_second[head.len() + i] == second[i]);
    }
    assert(first =~= second);
}

/// The limit can be read back from the message: two errors about the size
/// of the stream, or about the size of one field, have the same message only
/// if they have the same limit.
pub proof fn lemma_message_tells_limits_apart(field_name: Option<String>, first: u64, second: u64)
    ensures
        (ParseError::StreamSizeExceeded { limit: first }).message() == (
            ParseError::StreamSizeExceeded { limit: second }
        ).message() <==> first == second,
        (ParseError::FieldSizeExceeded { limit: first, field_name }).message() == (
            ParseError::FieldSizeExceeded { limit: second, field_name }
        ).message() <==> first == second,
{
    let of_first = decimal(first as nat);
    let of_second = decimal(second as nat);
    if (ParseError::StreamSizeExceeded { limit: first }).message() == (
        ParseError::StreamSizeExceeded { limit: second }
    ).message() {
        lemma_middle_is_determined(
            "stream size exceeded limit: "@,
            of_first,
            of_second,
            " bytes"@,
        );
        lemma_decimal_is_injective(first as nat, second as nat);
    }
    if (ParseError::FieldSizeExceeded { limit: first, field_name }).message() == (
        ParseError::FieldSizeExceeded { limit: second, field_name }
    ).message() {
        let quoted = debug_quoted(name_or_placeholder(field_name));
        lemma_middle_is_determined(
            "field "@ + quoted + " exceeded the size limit: "@,
            of_first,
            of_second,
            " bytes"@,
        );
        lemma_decimal_is_injective(first as nat, second as nat);
    }
}

/// Whether `c` ends a line.
pub open spec fn is_line_break(c: char) -> bool {
    c == '\n' || c == '\r'
}

/// Whether `text` stays on one line.
pub open spec fn is_one_line(text: Seq<char>) -> bool {
    forall|i: int| 0 <= i < text.len() ==> !is_line_break(#[trigger] text[i])
}

/// Whether no character of `text` from index `from` on ends a line.
spec fn unbroken_from(text: Seq<char>, from: int) -> bool
    decreases text.len() - from,
{
    if from < 0 || from >= text.len() {
        true
    } else {
        !is_line_break(text[from]) && unbroken_from(text, from + 1)
    }
}

proof fn lemma_unbroken_from(text: Seq<char>, from: int)
    requires
        0 <= from,
        unbroken_from(text, from),
    ensures
        forall|i: int| from <= i < text.len() ==> !is_line_break(#[trigger] text[i]),
    decreases text.len() - from,
{
    if from < text.len() {
        lemma_unbroken_from(text, from + 1);
    }
}

/// None of the phrases that messages are made of holds a line break.
proof fn lemma_phrases_are_one_line()
    ensures
        is_one_line("unknown field received: "@),
        is_one_line("field "@),
        is_one_line(" received with incomplete data"@),
        is_one_line("failed to read field complete headers"@),
        is_one_line("failed to read headers"@),
        is_one_line("failed to decode field's raw header name: "@),
        is_one_line("failed to decode field's raw header value"@),
        is_one_line("incomplete multipart stream"@),
        is_one_line(" exceeded the size limit: "@),
        is_one_line(" bytes"@),
        is_one_line("stream size exceeded limit: "@),
        is_one_line("failed to read stream"@),
        is_one_line("failed to lock multipart state"@),
        is_one_line("Content-Type is not multipart/form-data"@),
        is_one_line("failed to decode Content-Type"@),
        is_one_line("multipart boundary not found in Content-Type"@),
        is_one_line("multipart boundary found multiple times in Content-Type"@),
        is_one_line("failed to decode field data as JSON"@),
{
    reveal_with_fuel(unbroken_from, 64);
    reveal_strlit("unknown field received: ");
    lemma_unbroken_from("unknown field received: "@, 0);
    reveal_strlit("field ");
    lemma_unbroken_from("field "@, 0);
    reveal_strlit(" received with incomplete data");
    lemma_unbroken_from(" received with incomplete data"@, 0);
    reveal_strlit("failed to read field complete headers");
    lemma_unbroken_from("failed to read field complete headers"@, 0);
    reveal_strlit("failed to read headers");
    lemma_unbroken_from("failed to read headers"@, 0);
    reveal_strlit("failed to decode field's raw header name: ");
    lemma_unbroken_from("failed to decode field's raw header name: "@, 0);
    reveal_strlit("failed to decode field's raw header value");
    lemma_unbroken_from("failed to decode field's raw header value"@, 0);
    reveal_strlit("incomplete multipart stream");
    lemma_unbroken_from("incomplete multipart stream"@, 0);
    reveal_strlit(" exceeded the size limit: ");
    lemma_unbroken_from(" exceeded the size limit: "@, 0);
    reveal_strlit(" bytes");
    lemma_unbroken_from(" bytes"@, 0);
    reveal_strlit("stream size exceeded limit: ");
    lemma_unbroken_from("stream size exceeded limit: "@, 0);
    reveal_strlit("failed to read stream");
    lemma_unbroken_from("failed to read stream"@, 0);
    reveal_strlit("failed to lock multipart state");
    lemma_unbroken_from("failed to lock multipart state"@, 0);
    reveal_strlit("Content-Type is not multipart/form-data");
    lemma_unbroken_from("Content-Type is not multipart/form-data"@, 0);
    reveal_strlit("failed to decode Content-Type");
    lemma_unbroken_from("failed to decode Content-Type"@, 0);
    reveal_strlit("multipart boundary not found in Content-Type");
    lemma_unbroken_from("multipart boundary not found in Content-Type"@, 0);
    reveal_strlit("multipart boundary found multiple times in Content-Type");
    lemma_unbroken_from("multipart boundary found multiple times in Content-Type"@, 0);
    reveal_strlit("failed to decode field data as JSON");
    lemma_unbroken_from("failed to decode field data as JSON"@, 0);
}

/// Two texts that each stay on one line do so when joined.
proof fn lemma_joined_is_one_line(head: Seq<char>, tail: Seq<char>)
    requires
        is_one_line(head),
        is_one_line(tail),
    ensures
        is_one_line(head + tail),
{
    assert forall|i: int| 0 <= i < (head + tail).len() implies !is_line_break(
        #[trigger] (head + tail)[i],
    ) by {
        if i < head.len() {
            assert((head + tail)[i] == head[i]);
        } else {
            assert((head + tail)[i] == tail[i - head.len()]);
        }
    }
}

/// A decimal numeral stays on one line.
proof fn lemma_decimal_is_one_line(n: nat)
    ensures
        is_one_line(decimal(n)),
{
    lemma_decimal_is_numeral(n);
    assert forall|i: int| 0 <= i < decimal(n).len() implies !is_line_break(
        #[trigger] decimal(n)[i],
    ) by {
        assert(is_digit(decimal(n)[i]));
    }
}

/// The message is one line of text wherever the quoted name is: the phrases
/// and the limit never break the line, and nothing else is in the message.
pub proof fn lemma_message_is_one_line(error: ParseError)
    requires
        error.subject() matches Some(name) ==> is_one_line(debug_quoted(name)),
    ensures
        is_one_line(error.message()),
{
    lemma_phrases_are_one_line();
    match error {
        ParseError::UnknownField { .. } => {
            let quoted = debug_quoted(error.subject()->0);
            lemma_joined_is_one_line("unknown field received: "@, quoted);
        },
        ParseError::IncompleteFieldData { .. } => {
            let quoted = debug_quoted(error.subject()->0);
            lemma_joined_is_one_line("field "@, quoted);
            lemma_joined_is_one_line("field "@ + quoted, " received with incomplete data"@);
        },
        ParseError::DecodeHeaderName { .. } => {
            let quoted = debug_quoted(error.subject()->0);
            lemma_joined_is_one_line("failed to decode field's raw header name: "@, quoted);
        },
        ParseError::FieldSizeExceeded { limit, .. } => {
            let quoted = debug_quoted(error.subject()->0);
            let digits = decimal(limit as nat);
            lemma_decimal_is_one_line(limit as nat);
            lemma_joined_is_one_line("field "@, quoted);
            lemma_joined_is_one_line("field "@ + quoted, " exceeded the size limit: "@);
            lemma_joined_is_one_line("field "@ + quoted + " exceeded the size limit: "@, digits);
            lemma_joined_is_one_line(
                "field "@ + quoted + " exceeded the size limit: "@ + digits,
                " bytes"@,
            );
        },
        ParseError::StreamSizeExceeded { limit } => {
            let digits = decimal(limit as nat);
            lemma_decimal_is_one_line(limit as nat);
            lemma_joined_is_one_line("stream size exceeded limit: "@, digits);
            lemma_joined_is_one_line("stream size exceeded limit: "@ + digits, " bytes"@);
        },
        _ => {},
    }
}

} // verus!
