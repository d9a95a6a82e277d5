//! Quoting of text for messages.

use vstd::prelude::*;

verus! {

/// The quoted form of the text `s`: what std's `Debug` for `str` writes for
/// it, that is `s` between double quotes with the characters escaped that
/// `Debug` escapes.
pub uninterp spec fn debug_quoted(s: Seq<char>) -> Seq<char>;

/// Formats `s` with std's `Debug` for `str` (`{:?}`). Not proved: that the
/// text returned is the quoted form of `s`, which is a function of the
/// characters of `s` alone.
#[verifier::external_body]
pub(crate) fn quote(s: &str) -> (quoted: String)
    ensures
        quoted@ == debug_quoted(s@),
{
    format!("{:?}", s)
}

} // verus!
