//! Text: joining, prefixes, and bytes read as UTF-8.

use vstd::prelude::*;
use vstd::string::StrSliceExecFns;
use vstd::string::StringExecFns;
use vstd::utf8::decode_utf8;
use vstd::utf8::valid_utf8;

verus! {

/// A text followed by another.
pub fn join(head: String, tail: &str) -> (r: String)
    ensures
        r@ == head@ + tail@,
{
    head.concat(tail)
}

/// Whether two texts are the same.
pub fn same_text(a: &str, b: &str) -> (r: bool)
    ensures
        r == (a@ == b@),
{
    a.to_owned() == b.to_owned()
}

/// What follows `prefix` in `text`, where `text` begins with it.
pub fn strip_prefix<'a>(text: &'a str, prefix: &str) -> (r: Option<&'a str>)
    ensures
        r is Some <==> prefix@.is_prefix_of(text@),
        r matches Some(rest) ==> text@ == prefix@ + rest@,
{
    let len: usize = text.unicode_len();
    let cut: usize = prefix.unicode_len();
    if len < cut {
        return None;
    }
    let head = text.substring_char(0, cut);
    if !same_text(head, prefix) {
        return None;
    }
    let rest = text.substring_char(cut, len);
    assert(text@ =~= prefix@ + rest@);
    Some(rest)
}

/// Why the bytes are no UTF-8, in the words of `core::str::Utf8Error`.
pub uninterp spec fn utf8_fault(bytes: Seq<u8>) -> Seq<char>;

/// `core::str::from_utf8`: the text that the bytes encode where they are valid UTF-8, and
/// otherwise the message of the error.
#[verifier::external_body]
pub(crate) fn read_utf8(bytes: &[u8]) -> (r: Result<String, String>)
    ensures
        match r {
            Ok(text) => valid_utf8(bytes@) && text@ == decode_utf8(bytes@),
            Err(fault) => !valid_utf8(bytes@) && fault@ == utf8_fault(bytes@),
        },
{
    core::str::from_utf8(bytes).map(String::from).map_err(|e| e.to_string())
}

} // verus!
