//! Strings as the engine needs them.

use vstd::prelude::*;

verus! {

/// `str::starts_with` with a string as the pattern: whether `text` begins
/// with `prefix`.
#[verifier::external_body]
pub(crate) fn text_starts_with(text: &str, prefix: &str) -> (begins: bool)
    ensures
        begins == prefix@.is_prefix_of(text@),
{
    text.starts_with(prefix)
}

/// `str::rsplit_once` with a character as the delimiter: the text before
/// the last occurrence of the delimiter and the text after it, or nothing
/// if the delimiter does not occur.
#[verifier::external_body]
pub(crate) fn text_rsplit_once<'a>(text: &'a str, delimiter: char) -> (parts: Option<
    (&'a str, &'a str),
>)
    ensures
        match parts {
            Some((head, tail)) => text@ == head@ + seq![delimiter] + tail@ && !tail@.contains(
                delimiter,
            ),
            None => !text@.contains(delimiter),
        },
{
    text.rsplit_once(delimiter)
}

} // verus!
