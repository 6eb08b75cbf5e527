use vstd::prelude::*;
use vstd::utf8::*;

verus! {

/// The text that the host's byte-to-string conversion makes of `bytes`: the
/// decoded characters where `bytes` is valid UTF-8, the empty string otherwise.
pub open spec fn text_of(bytes: Seq<u8>) -> Seq<char> {
    if valid_utf8(bytes) {
        decode_utf8(bytes)
    } else {
        Seq::empty()
    }
}

/// Relies on suborbital::util::to_string, whose body is
/// `String::from_utf8(input).unwrap_or_default()`: the decoded text of valid
/// UTF-8, the empty string for any other input.
#[verifier::external_body]
pub(crate) fn bytes_to_text(input: Vec<u8>) -> (r: String)
    ensures
        r@ == text_of(input@),
{
    suborbital::util::to_string(input)
}

} // verus!
