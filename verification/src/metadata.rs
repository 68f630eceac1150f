//! Values of request and response headers.

use tonic::metadata::Ascii;
use vstd::prelude::*;

verus! {

/// Whether a byte may stand in a header value.
pub open spec fn is_header_byte(b: u8) -> bool {
    b == 9 || (b >= 32 && b != 127)
}

/// Whether a byte of a header value is visible ASCII, a blank or a tab.
pub open spec fn is_visible_byte(b: u8) -> bool {
    b == 9 || 32 <= b < 127
}

/// Whether some bytes may be a header value.
pub open spec fn is_header_value(bytes: Seq<u8>) -> bool {
    forall|i: int| 0 <= i < bytes.len() ==> is_header_byte(#[trigger] bytes[i])
}

/// Whether a header value can be read as text.
pub open spec fn is_visible(bytes: Seq<u8>) -> bool {
    forall|i: int| 0 <= i < bytes.len() ==> is_visible_byte(#[trigger] bytes[i])
}

/// The text of visible bytes: one character for each.
pub open spec fn ascii_text(bytes: Seq<u8>) -> Seq<char> {
    Seq::new(bytes.len(), |i: int| bytes[i] as char)
}

/// The bytes of an ASCII text: one for each character.
pub open spec fn ascii_bytes(text: Seq<char>) -> Seq<u8> {
    Seq::new(text.len(), |i: int| text[i] as u8)
}

/// A header value.
#[derive(Debug)]
pub struct MetadataValue {
    bytes: Vec<u8>,
}

impl View for MetadataValue {
    type V = Seq<u8>;

    closed spec fn view(&self) -> Seq<u8> {
        self.bytes@
    }
}

impl MetadataValue {
    #[verifier::type_invariant]
    spec fn inv(self) -> bool {
        is_header_value(self.bytes@)
    }

    /// The header value that some bytes are, where they may be one.
    pub fn from_bytes(bytes: Vec<u8>) -> (r: Option<MetadataValue>)
        ensures
            r is Some <==> is_header_value(bytes@),
            r matches Some(value) ==> value@ == bytes@,
    {
        if accepts(bytes.as_slice()) {
            Some(MetadataValue { bytes })
        } else {
            None
        }
    }

    pub fn as_bytes(&self) -> (r: &[u8])
        ensures
            r@ == self@,
            is_header_value(r@),
    {
        proof {
            use_type_invariant(self);
        }
        self.bytes.as_slice()
    }

    /// The text of the value, where all of its bytes are visible.
    pub fn to_str(&self) -> (r: Result<String, String>)
        ensures
            match r {
                Ok(text) => is_visible(self@) && text@ == ascii_text(self@),
                Err(fault) => !is_visible(self@) && fault@ == "failed to convert metadata to a str"@,
            },
    {
        proof {
            use_type_invariant(self);
        }
        read_visible(self.bytes.as_slice())
    }
}

/// A header value may have any length. It holds tabs and bytes from a blank up but for one, and can
/// be read as text where none of them is beyond ASCII: one character for each byte.
pub proof fn law_header_values_are_told_byte_by_byte(bytes: Seq<u8>)
    ensures
        is_header_value(bytes) <==> (forall|i: int|
            0 <= i < bytes.len() ==> #[trigger] bytes[i] == 9 || (32 <= bytes[i] && bytes[i]
                != 127)),
        is_visible(bytes) <==> (forall|i: int|
            0 <= i < bytes.len() ==> #[trigger] bytes[i] == 9 || 32 <= bytes[i] < 127),
        ascii_text(bytes).len() == bytes.len(),
        forall|i: int|
            0 <= i < bytes.len() ==> #[trigger] ascii_text(bytes)[i] as int == bytes[i] as int,
{
    if forall|i: int|
        0 <= i < bytes.len() ==> #[trigger] bytes[i] == 9 || (32 <= bytes[i] && bytes[i] != 127) {
        assert(is_header_value(bytes));
    } else {
        let i = choose|i: int|
            0 <= i < bytes.len() && !(#[trigger] bytes[i] == 9 || (32 <= bytes[i] && bytes[i]
                != 127));
        assert(!is_header_byte(bytes[i]));
    }
    if forall|i: int| 0 <= i < bytes.len() ==> #[trigger] bytes[i] == 9 || 32 <= bytes[i] < 127 {
        assert(is_visible(bytes));
    } else {
        let i = choose|i: int|
            0 <= i < bytes.len() && !(#[trigger] bytes[i] == 9 || 32 <= bytes[i] < 127);
        assert(!is_visible_byte(bytes[i]));
    }
}

/// `TryFrom<&[u8]>` of `tonic::metadata::MetadataValue<Ascii>`: succeeds on tabs and on bytes
/// from 32 up but for 127, and on nothing else.
#[verifier::external_body]
fn accepts(bytes: &[u8]) -> (r: bool)
    ensures
        r == is_header_value(bytes@),
{
    tonic::metadata::MetadataValue::<Ascii>::try_from(bytes).is_ok()
}

/// `to_str` of `tonic::metadata::MetadataValue<Ascii>`: the bytes as text where each is a tab
/// or from 32 to 126, and otherwise an error, whose message is returned.
#[verifier::external_body]
fn read_visible(bytes: &[u8]) -> (r: Result<String, String>)
    requires
        is_header_value(bytes@),
    ensures
        match r {
            Ok(text) => is_visible(bytes@) && text@ == ascii_text(bytes@),
            Err(fault) => !is_visible(bytes@) && fault@ == "failed to convert metadata to a str"@,
        },
{
    let value = tonic::metadata::MetadataValue::<Ascii>::try_from(bytes).unwrap();
    value.to_str().map(String::from).map_err(|e| e.to_string())
}

} // verus!
