use vstd::prelude::*;

use crate::text::{lemma_strip_newlines_append, spec_strip_newlines};

verus! {

/// The byte sequence that standard base64 decoding yields for `s`, or
/// nothing when `s` is not valid base64. The result is a function of the
/// characters of `s` alone.
pub uninterp spec fn base64_decoded(s: Seq<char>) -> Option<Seq<u8>>;

#[verifier::external_type_specification]
#[verifier::external_body]
pub struct ExDecodeError(base64::DecodeError);

/// Relies on `base64::Engine::decode` with the standard engine: it succeeds
/// exactly on valid standard base64, and its result depends on the input
/// characters alone.
#[verifier::external_body]
pub(crate) fn base64_decode(s: &str) -> (r: Result<Vec<u8>, base64::DecodeError>)
    ensures
        match r {
            Ok(v) => base64_decoded(s@) == Some(v@),
            Err(_) => base64_decoded(s@) is None,
        },
{
    base64::Engine::decode(&base64::engine::general_purpose::STANDARD, s)
}

#[verifier::external_type_specification]
#[verifier::external_body]
pub struct ExFromUtf8Error(std::string::FromUtf8Error);

/// Relies on `String::from_utf8`: it succeeds exactly on valid UTF-8 input
/// and returns the string those bytes encode.
#[verifier::external_body]
pub(crate) fn string_from_utf8(v: Vec<u8>) -> (r: Result<String, std::string::FromUtf8Error>)
    ensures
        r is Ok <==> vstd::utf8::valid_utf8(v@),
        r matches Ok(s) ==> s@ == vstd::utf8::decode_utf8(v@),
{
    String::from_utf8(v)
}

/// The text a base64 content payload denotes: drop the line breaks the
/// remote may have inserted, decode the base64, and read the bytes as
/// UTF-8 text. Nothing when either decoding step fails.
pub open spec fn spec_content_text(content: Seq<char>) -> Option<Seq<char>> {
    match base64_decoded(spec_strip_newlines(content)) {
        Some(bytes) => if vstd::utf8::valid_utf8(bytes) {
            Some(vstd::utf8::decode_utf8(bytes))
        } else {
            None
        },
        None => None,
    }
}

/// Inserting a line break anywhere in a content payload never changes the
/// text it denotes: the remote may wrap its base64 across lines freely.
pub proof fn lemma_line_break_invisible(a: Seq<char>, b: Seq<char>, c: char)
    requires
        c == '\n' || c == '\r',
    ensures
        spec_content_text(a + seq![c] + b) == spec_content_text(a + b),
{
    lemma_strip_newlines_append(a + seq![c], b);
    lemma_strip_newlines_append(a, seq![c]);
    lemma_strip_newlines_append(a, b);
    assert(seq![c].len() == 1 && seq![c].last() == c);
    assert(seq![c].drop_last() =~= Seq::<char>::empty());
    assert(spec_strip_newlines(Seq::<char>::empty()) == Seq::<char>::empty());
    assert(spec_strip_newlines(seq![c]) =~= Seq::<char>::empty());
    assert(spec_strip_newlines(a) + spec_strip_newlines(seq![c]) =~= spec_strip_newlines(a));
    assert(spec_strip_newlines(a + seq![c] + b) == spec_strip_newlines(a + b));
}

} // verus!
