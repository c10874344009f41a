//! Text operations of the standard library.
use vstd::prelude::*;
use vstd::utf8::{decode_utf8, valid_utf8};

verus! {

/// The text that `{:?}` prints for a string.
pub uninterp spec fn debug_text_of(text: Seq<char>) -> Seq<char>;

/// Formats a string with `{:?}`, the `Debug` impl of `str` in the standard
/// library. Claims only that the printed text depends on the string alone.
#[verifier::external_body]
pub(crate) fn debug_text(text: &str) -> (printed: String)
    ensures
        printed@ == debug_text_of(text@),
{
    format!("{:?}", text)
}

/// A result with its error text as a sequence.
pub open spec fn result_view(result: Result<(), String>) -> Result<(), Seq<char>> {
    match result {
        Ok(_) => Ok(()),
        Err(message) => Err(message@),
    }
}

/// Calls `String::from_utf8`. Claims that it succeeds exactly on valid UTF-8
/// and then returns the decoded text.
#[verifier::external_body]
pub(crate) fn text_from_utf8(bytes: Vec<u8>) -> (text: Option<String>)
    ensures
        text is Some <==> valid_utf8(bytes@),
        text is Some ==> text->0@ == decode_utf8(bytes@),
{
    String::from_utf8(bytes).ok()
}

} // verus!
