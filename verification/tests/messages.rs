use multipart_error::decimal::decimal_string;
use multipart_error::{BoxError, ParseError};

fn boxed(text: &str) -> BoxError {
    BoxError(Box::new(std::io::Error::new(std::io::ErrorKind::Other, text.to_string())))
}

fn media_type_failure() -> mime::FromStrError {
    "".parse::<mime::Mime>().unwrap_err()
}

fn json_failure() -> serde_json::Error {
    serde_json::from_str::<serde_json::Value>("{").unwrap_err()
}

#[test]
fn decimal_of_zero_is_one_digit() {
    assert_eq!(decimal_string(0), "0");
}

#[test]
fn decimal_of_single_digits() {
    let expected = ["0", "1", "2", "3", "4", "5", "6", "7", "8", "9"];
    for (n, text) in expected.iter().enumerate() {
        assert_eq!(decimal_string(n as u64), *text);
    }
}

#[test]
fn decimal_at_digit_boundaries() {
    assert_eq!(decimal_string(9), "9");
    assert_eq!(decimal_string(10), "10");
    assert_eq!(decimal_string(99), "99");
    assert_eq!(decimal_string(100), "100");
    assert_eq!(decimal_string(1024), "1024");
    assert_eq!(decimal_string(1_000_000), "1000000");
}

#[test]
fn decimal_of_largest_value() {
    assert_eq!(decimal_string(u64::MAX), "18446744073709551615");
}

#[test]
fn decimal_agrees_with_std() {
    let mut n: u64 = 1;
    for _ in 0..64 {
        assert_eq!(decimal_string(n), n.to_string());
        assert_eq!(decimal_string(n - 1), (n - 1).to_string());
        n = n.wrapping_mul(2);
    }
    assert_eq!(decimal_string(1234567890123456789), "1234567890123456789");
}

#[test]
fn unknown_field_with_name() {
    let error = ParseError::UnknownField { field_name: Some("avatar".to_string()) };
    assert_eq!(error.render(), "unknown field received: \"avatar\"");
}

#[test]
fn unknown_field_without_name_shows_placeholder() {
    let error = ParseError::UnknownField { field_name: None };
    let text = error.render();
    assert!(!text.is_empty());
    assert!(text.contains("<unknown>"));
    assert!(text.contains("unknown field"));
    assert_eq!(text, "unknown field received: \"<unknown>\"");
}

#[test]
fn incomplete_field_data_with_and_without_name() {
    let named = ParseError::IncompleteFieldData { field_name: Some("file".to_string()) };
    assert_eq!(named.render(), "field \"file\" received with incomplete data");
    let unnamed = ParseError::IncompleteFieldData { field_name: None };
    assert_eq!(unnamed.render(), "field \"<unknown>\" received with incomplete data");
    assert!(unnamed.render().contains("incomplete data"));
}

#[test]
fn field_size_exceeded_shows_name_and_limit() {
    let error =
        ParseError::FieldSizeExceeded { limit: 1024, field_name: Some("avatar".to_string()) };
    let text = error.render();
    assert!(text.contains("avatar"));
    assert!(text.contains("1024"));
    assert_eq!(text, "field \"avatar\" exceeded the size limit: 1024 bytes");
}

#[test]
fn field_size_exceeded_without_name() {
    let error = ParseError::FieldSizeExceeded { limit: 0, field_name: None };
    assert_eq!(error.render(), "field \"<unknown>\" exceeded the size limit: 0 bytes");
}

#[test]
fn stream_size_exceeded_shows_limit() {
    let error = ParseError::StreamSizeExceeded { limit: 15 * 1024 * 1024 };
    assert_eq!(error.render(), "stream size exceeded limit: 15728640 bytes");
    let largest = ParseError::StreamSizeExceeded { limit: u64::MAX };
    assert_eq!(largest.render(), "stream size exceeded limit: 18446744073709551615 bytes");
}

#[test]
fn decode_header_name_shows_raw_name() {
    let error = ParseError::DecodeHeaderName { name: "X\u{2013}Bad".to_string(), cause: boxed("bad") };
    assert!(error.source().is_some());
    let text = error.render();
    assert!(text.contains("X\u{2013}Bad"));
    assert_eq!(text, "failed to decode field's raw header name: \"X\u{2013}Bad\"");
}

#[test]
fn decode_header_value_keeps_raw_bytes_out() {
    let short = ParseError::DecodeHeaderValue { value: vec![0xff], cause: boxed("bad") };
    let long = ParseError::DecodeHeaderValue { value: vec![0x41; 100_000], cause: boxed("bad") };
    assert_eq!(short.render(), "failed to decode field's raw header value");
    assert_eq!(long.render(), "failed to decode field's raw header value");
}

#[test]
fn fixed_phrases() {
    assert_eq!(ParseError::IncompleteHeaders.render(), "failed to read field complete headers");
    assert_eq!(
        ParseError::ReadHeaderFailed(httparse::Error::Token).render(),
        "failed to read headers"
    );
    assert_eq!(ParseError::IncompleteStream.render(), "incomplete multipart stream");
    assert_eq!(ParseError::StreamReadFailed(boxed("gone")).render(), "failed to read stream");
    assert_eq!(ParseError::LockFailure.render(), "failed to lock multipart state");
    assert_eq!(ParseError::NoMultipart.render(), "Content-Type is not multipart/form-data");
    assert_eq!(
        ParseError::DecodeContentType(media_type_failure()).render(),
        "failed to decode Content-Type"
    );
    assert_eq!(ParseError::NoBoundary.render(), "multipart boundary not found in Content-Type");
    assert_eq!(
        ParseError::MultipleBoundaries.render(),
        "multipart boundary found multiple times in Content-Type"
    );
}

#[test]
fn decode_json_has_fixed_phrase_and_cause() {
    let error = ParseError::DecodeJson(json_failure());
    assert_eq!(error.render(), "failed to decode field data as JSON");
    assert!(error.source().is_some());
}

#[test]
fn names_are_quoted_and_escaped() {
    let quote = ParseError::UnknownField { field_name: Some("a\"b".to_string()) };
    assert_eq!(quote.render(), "unknown field received: \"a\\\"b\"");
    let line_break = ParseError::UnknownField { field_name: Some("a\nb".to_string()) };
    assert_eq!(line_break.render(), "unknown field received: \"a\\nb\"");
    assert!(!line_break.render().contains('\n'));
    let empty = ParseError::UnknownField { field_name: Some(String::new()) };
    assert_eq!(empty.render(), "unknown field received: \"\"");
}

#[test]
fn render_with_puts_the_given_text_in_place_of_the_name() {
    let unknown = ParseError::UnknownField { field_name: Some("ignored".to_string()) };
    assert_eq!(unknown.render_with("<q>"), "unknown field received: <q>");
    let incomplete = ParseError::IncompleteFieldData { field_name: None };
    assert_eq!(incomplete.render_with("<q>"), "field <q> received with incomplete data");
    let name = ParseError::DecodeHeaderName { name: "n".to_string(), cause: boxed("bad") };
    assert_eq!(name.render_with("<q>"), "failed to decode field's raw header name: <q>");
    let field = ParseError::FieldSizeExceeded { limit: 7, field_name: None };
    assert_eq!(field.render_with("<q>"), "field <q> exceeded the size limit: 7 bytes");
    let stream = ParseError::StreamSizeExceeded { limit: 7 };
    assert_eq!(stream.render_with("<q>"), "stream size exceeded limit: 7 bytes");
    assert_eq!(ParseError::NoBoundary.render_with("<q>"), ParseError::NoBoundary.render());
}

#[test]
fn subject_name_is_the_name_the_message_shows() {
    let named = ParseError::UnknownField { field_name: Some("avatar".to_string()) };
    assert_eq!(named.subject_name(), Some("avatar"));
    let unnamed = ParseError::IncompleteFieldData { field_name: None };
    assert_eq!(unnamed.subject_name(), Some("<unknown>"));
    let sized = ParseError::FieldSizeExceeded { limit: 1, field_name: Some("f".to_string()) };
    assert_eq!(sized.subject_name(), Some("f"));
    let header = ParseError::DecodeHeaderName { name: "X-Bad".to_string(), cause: boxed("bad") };
    assert_eq!(header.subject_name(), Some("X-Bad"));
    assert_eq!(ParseError::StreamSizeExceeded { limit: 1 }.subject_name(), None);
    assert_eq!(ParseError::NoMultipart.subject_name(), None);
    let value = ParseError::DecodeHeaderValue { value: vec![1, 2], cause: boxed("bad") };
    assert_eq!(value.subject_name(), None);
}

#[test]
fn render_is_repeatable() {
    let error = ParseError::FieldSizeExceeded { limit: 42, field_name: Some("f".to_string()) };
    let first = error.render();
    let second = error.render();
    let third = error.render();
    assert_eq!(first, second);
    assert_eq!(second, third);
}

#[test]
fn debug_form_is_the_message() {
    let errors = vec![
        ParseError::UnknownField { field_name: None },
        ParseError::FieldSizeExceeded { limit: 9, field_name: Some("a b".to_string()) },
        ParseError::StreamReadFailed(boxed("gone")),
        ParseError::NoBoundary,
    ];
    for error in errors.iter() {
        assert_eq!(error.render_debug(), error.render());
    }
}

#[test]
fn message_does_not_hold_the_text_of_the_cause() {
    let first = ParseError::StreamReadFailed(boxed("connection reset by peer"));
    let second = ParseError::StreamReadFailed(boxed("timed out"));
    assert_eq!(first.render(), second.render());
    assert!(!first.render().contains("connection reset by peer"));
    let token = ParseError::ReadHeaderFailed(httparse::Error::Token);
    let version = ParseError::ReadHeaderFailed(httparse::Error::Version);
    assert_eq!(token.render(), version.render());
    assert!(!token.render().contains(&httparse::Error::Token.to_string()));
    let json = ParseError::DecodeJson(json_failure());
    assert!(!json.render().contains(&json_failure().to_string()));
    let media = ParseError::DecodeContentType(media_type_failure());
    assert!(!media.render().contains(&media_type_failure().to_string()));
}

#[test]
fn decimal_is_made_of_digits_without_leading_zero() {
    let samples: [u64; 8] = [0, 7, 10, 101, 9_999, 10_000, 1 << 40, u64::MAX];
    for n in samples.iter() {
        let text = decimal_string(*n);
        assert!(!text.is_empty());
        assert!(text.chars().all(|c| c.is_ascii_digit()));
        assert!(*n == 0 || !text.starts_with('0'));
        assert_eq!(text.parse::<u64>().unwrap(), *n);
    }
}

#[test]
fn message_shows_the_quoted_name_and_the_limit() {
    let error = ParseError::FieldSizeExceeded { limit: 2048, field_name: Some("a b".to_string()) };
    let text = error.render();
    assert!(text.contains(&format!("{:?}", "a b")));
    assert!(text.contains(&decimal_string(2048)));
    let stream = ParseError::StreamSizeExceeded { limit: 3 };
    assert!(stream.render().contains(&decimal_string(3)));
}
