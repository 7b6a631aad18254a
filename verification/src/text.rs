//! Text conversions that the standard library performs for the report.
//!
//! Nothing in this module is proved: each item states what a function of
//! the standard library is trusted to do.

use vstd::prelude::*;
use vstd::utf8::{decode_utf8, valid_utf8};

verus! {

/// The error of `core::str::from_utf8`. Opaque: only its presence is observed.
#[verifier::external_type_specification]
#[verifier::external_body]
pub struct ExUtf8Error(core::str::Utf8Error);

/// `core::str::from_utf8` succeeds exactly on well-formed UTF-8, and the
/// string slice it then returns holds the characters that the bytes encode.
pub assume_specification[ core::str::from_utf8 ](v: &[u8]) -> (outcome: Result<
    &str,
    core::str::Utf8Error,
>)
    ensures
        outcome is Ok <==> valid_utf8(v@),
        outcome matches Ok(text) ==> text@ == decode_utf8(v@),
;

/// `text` as a quoted and escaped string literal: what the `Debug`
/// implementation of `str` writes for it.
pub uninterp spec fn debug_quoted(text: Seq<char>) -> Seq<char>;

/// Renders `text` as a quoted and escaped string literal.
///
/// Formats `text` with `{:#?}`, that is with the `Debug` implementation of
/// `str`. Trusted: the literal depends on the characters of `text` alone.
#[verifier::external_body]
pub(crate) fn quoted(text: &str) -> (literal: String)
    ensures
        literal@ == debug_quoted(text@),
{
    format!("{:#?}", text)
}

} // verus!
