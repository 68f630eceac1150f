//! The messages that a client hands back to fetch a result, and their bytes.

use arrow_schema::ArrowError;
use prost::encoding::DecodeContext;
use prost::encoding::WireType;
use prost::Message;
use vstd::prelude::*;
use vstd::utf8::encode_utf8;
use vstd::utf8::encode_utf8_decode_utf8;

use crate::text::join;
use crate::text::same_text;

verus! {

/// A number in base 128, the lowest digit first, with the high bit set on every digit but the
/// last.
pub open spec fn varint(n: nat) -> Seq<u8>
    decreases n,
{
    if n < 128 {
        seq![n as u8]
    } else {
        seq![(n % 128 + 128) as u8] + varint(n / 128)
    }
}

/// Some bytes behind their number.
pub open spec fn delimited(bytes: Seq<u8>) -> Seq<u8> {
    varint(bytes.len()) + bytes
}

/// The UTF-8 of a text behind its number of bytes, and more behind that.
pub open spec fn delimited_text(text: Seq<char>, rest: Seq<u8>) -> Seq<u8> {
    delimited(encode_utf8(text)) + rest
}

/// A field of a message: its key and its delimited bytes, or nothing where it is empty.
pub open spec fn field(key: u8, bytes: Seq<u8>) -> Seq<u8> {
    if bytes.len() == 0 {
        Seq::empty()
    } else {
        seq![key] + delimited(bytes)
    }
}

/// The key of a text or of bytes in the first field.
pub const FIRST_FIELD: u8 = 0x0a;

/// The key of a text or of bytes in the second field.
pub const SECOND_FIELD: u8 = 0x12;

/// The bytes of a message whose only field, the first, is a text.
pub open spec fn text_message(text: Seq<char>) -> Seq<u8> {
    field(FIRST_FIELD, encode_utf8(text))
}

/// The bytes of a message that wraps another: the name of its type, then its bytes.
pub open spec fn any_message(type_url: Seq<char>, value: Seq<u8>) -> Seq<u8> {
    field(FIRST_FIELD, encode_utf8(type_url)) + field(SECOND_FIELD, value)
}

/// The key of the field that some bytes begin with, as `prost::encoding::decode_key` reads it:
/// the number of the field, the number of its wire type and the bytes behind the key, or the
/// message of the error.
pub uninterp spec fn read_key(bytes: Seq<u8>) -> Result<(u32, u8, Seq<u8>), Seq<char>>;

/// The text that some bytes begin with, as `prost::encoding::string::merge` reads it for a
/// field of a message: the text and the bytes behind it, or the message of the error.
pub uninterp spec fn read_text(
    message: Seq<char>,
    field: Seq<char>,
    wire_type: u8,
    bytes: Seq<u8>,
) -> Result<(Seq<char>, Seq<u8>), Seq<char>>;

/// The bytes behind the value of a field that is not wanted, as `prost::encoding::skip_field`
/// leaves them, or the message of the error.
pub uninterp spec fn skip_value(wire_type: u8, tag: u32, bytes: Seq<u8>) -> Result<
    Seq<u8>,
    Seq<char>,
>;

/// The handle in a message that asks for a result, as it is after what was read before and
/// the bytes that are left: of several handles the last counts, and other fields do not.
pub open spec fn read_handle(before: Seq<char>, bytes: Seq<u8>) -> Result<Seq<char>, Seq<char>>
    decreases bytes.len(),
{
    if bytes.len() == 0 {
        Ok(before)
    } else {
        match read_key(bytes) {
            Err(fault) => Err(fault),
            Ok((tag, wire_type, value)) => if tag == 1 {
                match read_text("FetchResults"@, "handle"@, wire_type, value) {
                    Err(fault) => Err(fault),
                    Ok((handle, rest)) => if rest.len() < bytes.len() {
                        read_handle(handle, rest)
                    } else {
                        arbitrary()
                    },
                }
            } else {
                match skip_value(wire_type, tag, value) {
                    Err(fault) => Err(fault),
                    Ok(rest) => if rest.len() < bytes.len() {
                        read_handle(before, rest)
                    } else {
                        arbitrary()
                    },
                }
            },
        }
    }
}

/// The key of a field, and the bytes behind it.
struct FieldKey<'a> {
    tag: u32,
    wire_type: u8,
    rest: &'a [u8],
}

/// The text in a field, and the bytes behind it.
struct FieldText<'a> {
    text: String,
    rest: &'a [u8],
}

/// What a reader of keys returned, seen as bytes and text.
spec fn key_view(r: Result<FieldKey<'_>, String>) -> Result<(u32, u8, Seq<u8>), Seq<char>> {
    match r {
        Ok(key) => Ok((key.tag, key.wire_type, key.rest@)),
        Err(fault) => Err(fault@),
    }
}

/// What a reader of texts returned, seen as bytes and text.
spec fn value_view(r: Result<FieldText<'_>, String>) -> Result<(Seq<char>, Seq<u8>), Seq<char>> {
    match r {
        Ok(value) => Ok((value.text@, value.rest@)),
        Err(fault) => Err(fault@),
    }
}

/// A key has a field number and a wire type, and takes at least one byte. Where it takes one,
/// the number of the field stands above the three bits of the wire type.
spec fn is_key_of(r: Result<FieldKey<'_>, String>, bytes: Seq<u8>) -> bool {
    &&& r matches Ok(key) ==> {
        &&& 1 <= key.tag
        &&& key.wire_type <= 5
        &&& key.rest@.len() < bytes.len()
    }
    &&& bytes.len() > 0 && 8 <= bytes[0] < 128 && bytes[0] % 8 <= 5 ==> {
        &&& r matches Ok(key)
        &&& key.tag == bytes[0] / 8
        &&& key.wire_type == bytes[0] % 8
        &&& key.rest@ == bytes.skip(1)
    }
}

/// A text takes no more than the bytes that there are. One that was written as delimited bytes
/// is read back under the wire type of those.
spec fn is_text_of(r: Result<FieldText<'_>, String>, wire_type: u8, bytes: Seq<u8>) -> bool {
    &&& r matches Ok(value) ==> value.rest@.len() <= bytes.len()
    &&& forall|text: Seq<char>, rest: Seq<u8>|
        wire_type == 2 && bytes == #[trigger] delimited_text(text, rest) ==> {
            &&& r matches Ok(value)
            &&& value.text@ == text
            &&& value.rest@ == rest
        }
}

/// What was left behind a value, seen as bytes and text.
spec fn rest_view(r: Result<&[u8], String>) -> Result<Seq<u8>, Seq<char>> {
    match r {
        Ok(rest) => Ok(rest@),
        Err(fault) => Err(fault@),
    }
}

/// What a reader of [`FetchResults`] returned, seen as text.
pub open spec fn handle_view(r: Result<FetchResults, String>) -> Result<Seq<char>, Seq<char>> {
    match r {
        Ok(message) => Ok(message.handle@),
        Err(fault) => Err(fault@),
    }
}

/// The text of a parse error of `arrow_schema`, as `Debug` writes it.
pub uninterp spec fn parse_error_debug(message: Seq<char>) -> Seq<char>;

/// Whether `Debug` writes a text as it is.
pub open spec fn is_plain(text: Seq<char>) -> bool {
    forall|i: int|
        0 <= i < text.len() ==> ' ' <= #[trigger] text[i] <= '~' && text[i] != '"' && text[i]
            != '\\'
}

/// What is said where the message inside a wrapper cannot be read.
pub open spec fn unpack_fault(fault: Seq<char>) -> Seq<char> {
    parse_error_debug("Unable to decode Any value: "@ + fault)
}

/// A message that wraps another: the name of its type and its bytes.
#[derive(Debug)]
pub struct Any {
    pub type_url: String,
    pub value: Vec<u8>,
}

/// The message by which a client fetches a result: the handle that the result is kept under.
#[derive(Debug)]
pub struct FetchResults {
    pub handle: String,
}

/// The name of the type of [`FetchResults`].
pub open spec fn fetch_results_url() -> Seq<char> {
    "type.googleapis.com/datafusion.example.com.sql.FetchResults"@
}

impl FetchResults {
    pub fn type_url() -> (r: &'static str)
        ensures
            r@ == fetch_results_url(),
    {
        "type.googleapis.com/datafusion.example.com.sql.FetchResults"
    }

    /// The message in a wrapper that names its type.
    pub fn as_any(&self) -> (r: Any)
        ensures
            r.type_url@ == fetch_results_url(),
            r.value@ == text_message(self.handle@),
    {
        Any {
            type_url: FetchResults::type_url().to_owned(),
            value: encode_text_message(&self.handle),
        }
    }

    /// Reads the message from its bytes, field by field. What [`FetchResults::as_any`] wrote is
    /// read back.
    pub fn decode(bytes: &[u8]) -> (r: Result<FetchResults, String>)
        ensures
            handle_view(r) == read_handle(Seq::empty(), bytes@),
            forall|handle: Seq<char>|
                bytes@ == #[trigger] text_message(handle) ==> (r matches Ok(message)
                    && message.handle@ == handle),
    {
        let mut handle = String::new();
        let mut rest = bytes;
        while rest.len() > 0
            invariant
                read_handle(handle@, rest@) == read_handle(Seq::empty(), bytes@),
                rest@ == bytes@ && handle@ == Seq::<char>::empty() || forall|h: Seq<char>|
                    bytes@ == #[trigger] text_message(h) ==> rest@.len() == 0 && handle@ == h,
            decreases rest@.len(),
        {
            proof {
                assert forall|h: Seq<char>| bytes@ == #[trigger] text_message(h) implies rest@
                    == bytes@ && bytes@[0] == FIRST_FIELD && bytes@.skip(1) == delimited_text(
                    h,
                    Seq::empty(),
                ) by {
                    assert(bytes@.skip(1) =~= delimited_text(h, Seq::empty()));
                }
            }
            match decode_key(rest) {
                Err(fault) => {
                    return Err(fault);
                },
                Ok(key) => {
                    if key.tag == 1 {
                        match decode_text("FetchResults", "handle", key.wire_type, key.rest) {
                            Err(fault) => {
                                return Err(fault);
                            },
                            Ok(value) => {
                                handle = value.text;
                                rest = value.rest;
                            },
                        }
                    } else {
                        match skip_field(key.wire_type, key.tag, key.rest) {
                            Err(fault) => {
                                return Err(fault);
                            },
                            Ok(behind) => {
                                rest = behind;
                            },
                        }
                    }
                },
            }
        }
        proof {
            assert forall|h: Seq<char>| bytes@ == #[trigger] text_message(h) implies handle@
                == h by {
                if rest@ == bytes@ {
                    encode_utf8_decode_utf8(h);
                    encode_utf8_decode_utf8(Seq::empty());
                    assert(encode_utf8(h) =~= encode_utf8(Seq::empty()));
                }
            }
        }
        Ok(FetchResults { handle })
    }
}

impl Any {
    /// Whether the wrapped message is a [`FetchResults`].
    pub fn is_fetch_results(&self) -> (r: bool)
        ensures
            r == (self.type_url@ == fetch_results_url()),
    {
        same_text(self.type_url.as_str(), FetchResults::type_url())
    }

    /// Reads the wrapped message where it is a [`FetchResults`].
    pub fn unpack(&self) -> (r: Result<Option<FetchResults>, String>)
        ensures
            self.type_url@ != fetch_results_url() ==> r == Ok::<Option<FetchResults>, String>(
                None,
            ),
            self.type_url@ == fetch_results_url() ==> match r {
                Ok(Some(message)) => read_handle(Seq::empty(), self.value@) == Ok::<
                    Seq<char>,
                    Seq<char>,
                >(message.handle@),
                Ok(None) => false,
                Err(text) => read_handle(Seq::empty(), self.value@) matches Err(fault) && text@
                    == unpack_fault(fault),
            },
            forall|handle: Seq<char>|
                self.type_url@ == fetch_results_url() && self.value@ == #[trigger] text_message(
                    handle,
                ) ==> (r matches Ok(Some(message)) && message.handle@ == handle),
    {
        if !self.is_fetch_results() {
            return Ok(None);
        }
        match FetchResults::decode(self.value.as_slice()) {
            Ok(message) => Ok(Some(message)),
            Err(fault) => {
                let message = join("Unable to decode Any value: ".to_owned(), fault.as_str());
                Err(show_parse_error(message))
            },
        }
    }

    pub fn encode_to_vec(&self) -> (r: Vec<u8>)
        ensures
            r@ == any_message(self.type_url@, self.value@),
    {
        encode_any(self.type_url.as_str(), self.value.as_slice())
    }
}

/// A number is read from its digits in one way only.
proof fn lemma_varint_prefix(a: nat, b: nat, x: Seq<u8>, y: Seq<u8>)
    requires
        varint(a) + x == varint(b) + y,
    ensures
        a == b,
        x == y,
    decreases a,
{
    let s = varint(a) + x;
    let t = varint(b) + y;
    assert(s[0] == varint(a)[0] && t[0] == varint(b)[0]);
    if a >= 128 && b >= 128 {
        assert(s.skip(1) =~= varint(a / 128) + x);
        assert(t.skip(1) =~= varint(b / 128) + y);
        lemma_varint_prefix(a / 128, b / 128, x, y);
    } else {
        assert(a == b);
        assert(s.skip(1) =~= x);
        assert(t.skip(1) =~= y);
    }
}

/// A field at the end of a message is read in one way only.
proof fn lemma_field_injective(key: u8, a: Seq<u8>, b: Seq<u8>)
    requires
        field(key, a) == field(key, b),
    ensures
        a == b,
{
    if a.len() > 0 && b.len() > 0 {
        assert(field(key, a).skip(1) =~= varint(a.len()) + a);
        assert(field(key, b).skip(1) =~= varint(b.len()) + b);
        lemma_varint_prefix(a.len(), b.len(), a, b);
    } else {
        assert(a =~= b);
    }
}

/// The bytes of the ticket by which the result under a handle is fetched.
pub open spec fn ticket_bytes(handle: Seq<char>) -> Seq<u8> {
    any_message(fetch_results_url(), text_message(handle))
}

/// Two handles never share a ticket.
pub proof fn law_tickets_are_distinct(a: Seq<char>, b: Seq<char>)
    requires
        ticket_bytes(a) == ticket_bytes(b),
    ensures
        a == b,
{
    let head = field(FIRST_FIELD, encode_utf8(fetch_results_url()));
    let s = field(SECOND_FIELD, text_message(a));
    let t = field(SECOND_FIELD, text_message(b));
    assert(s =~= (head + s).skip(head.len() as int));
    assert(t =~= (head + t).skip(head.len() as int));
    lemma_field_injective(SECOND_FIELD, text_message(a), text_message(b));
    lemma_field_injective(FIRST_FIELD, encode_utf8(a), encode_utf8(b));
    encode_utf8_decode_utf8(a);
    encode_utf8_decode_utf8(b);
}

/// A wrapper is read in one way only: its bytes say which type it wraps, and which bytes.
pub proof fn law_wrapper_says_what_it_wraps(
    type_url: Seq<char>,
    value: Seq<u8>,
    other_url: Seq<char>,
    other_value: Seq<u8>,
)
    requires
        any_message(type_url, value) == any_message(other_url, other_value),
    ensures
        type_url == other_url,
        value == other_value,
{
    let (a, b) = (encode_utf8(type_url), encode_utf8(other_url));
    let (x, y) = (field(SECOND_FIELD, value), field(SECOND_FIELD, other_value));
    let s = any_message(type_url, value);
    if a.len() > 0 && b.len() > 0 {
        assert(s.skip(1) =~= varint(a.len()) + (a + x));
        assert(s.skip(1) =~= varint(b.len()) + (b + y));
        lemma_varint_prefix(a.len(), b.len(), a + x, b + y);
        assert(a =~= (a + x).take(a.len() as int));
        assert(b =~= (b + y).take(b.len() as int));
        assert(x =~= (a + x).skip(a.len() as int));
        assert(y =~= (b + y).skip(b.len() as int));
    } else if a.len() == 0 && b.len() == 0 {
        assert(a =~= b);
        assert(s =~= x);
        assert(s =~= y);
    } else if a.len() == 0 {
        assert(s =~= x);
        assert(s[0] == FIRST_FIELD);
        assert(x.len() > 0 ==> x[0] == SECOND_FIELD);
    } else {
        assert(s =~= y);
        assert(s[0] == FIRST_FIELD);
        assert(y.len() > 0 ==> y[0] == SECOND_FIELD);
    }
    lemma_field_injective(SECOND_FIELD, value, other_value);
    encode_utf8_decode_utf8(type_url);
    encode_utf8_decode_utf8(other_url);
}

/// A message with a text says which text it is.
pub proof fn law_message_says_its_text(text: Seq<char>, other: Seq<char>)
    requires
        text_message(text) == text_message(other),
    ensures
        text == other,
{
    lemma_field_injective(FIRST_FIELD, encode_utf8(text), encode_utf8(other));
    encode_utf8_decode_utf8(text);
    encode_utf8_decode_utf8(other);
}

/// The ticket of a handle wraps a message that asks for a result, and that message says which
/// handle: whoever unwraps a ticket finds the type of such a message, and the bytes that a
/// message with this handle has.
pub proof fn law_ticket_wraps_its_handle(handle: Seq<char>, type_url: Seq<char>, value: Seq<u8>)
    requires
        ticket_bytes(handle) == any_message(type_url, value),
    ensures
        type_url == "type.googleapis.com/datafusion.example.com.sql.FetchResults"@,
        value == text_message(handle),
{
    law_wrapper_says_what_it_wraps(fetch_results_url(), text_message(handle), type_url, value);
}

/// A text is written behind the key of its field and the number of its bytes, all of it, and an
/// empty text is not written at all.
pub proof fn law_message_holds_the_whole_text(text: Seq<char>)
    ensures
        encode_utf8(text).len() == 0 ==> text_message(text).len() == 0,
        encode_utf8(text).len() > 0 ==> text_message(text) == seq![0x0au8] + varint(
            encode_utf8(text).len(),
        ) + encode_utf8(text),
{
    assert(encode_utf8(text).len() > 0 ==> text_message(text) =~= seq![0x0au8] + varint(
        encode_utf8(text).len(),
    ) + encode_utf8(text));
}

/// A wrapper holds the whole name of the type and all of the bytes that it wraps, each behind its
/// key and the number of its bytes.
pub proof fn law_wrapper_holds_all(type_url: Seq<char>, value: Seq<u8>)
    requires
        encode_utf8(type_url).len() > 0,
        value.len() > 0,
    ensures
        any_message(type_url, value) == seq![0x0au8] + varint(encode_utf8(type_url).len())
            + encode_utf8(type_url) + seq![0x12u8] + varint(value.len()) + value,
{
    assert(any_message(type_url, value) =~= seq![0x0au8] + varint(encode_utf8(type_url).len())
        + encode_utf8(type_url) + seq![0x12u8] + varint(value.len()) + value);
}

/// Bytes with nothing left say no more than was read before.
pub proof fn law_end_of_message_keeps_the_handle(before: Seq<char>)
    ensures
        read_handle(before, Seq::empty()) == Ok::<_, Seq<char>>(before),
{
}

/// A field of another number in front of a message does not count, however many there are.
pub proof fn law_other_fields_do_not_count(
    before: Seq<char>,
    bytes: Seq<u8>,
    tag: u32,
    wire_type: u8,
    value: Seq<u8>,
    rest: Seq<u8>,
)
    requires
        bytes.len() > 0,
        read_key(bytes) == Ok::<_, Seq<char>>((tag, wire_type, value)),
        tag != 1,
        skip_value(wire_type, tag, value) == Ok::<_, Seq<char>>(rest),
        rest.len() < bytes.len(),
    ensures
        read_handle(before, bytes) == read_handle(before, rest),
{
}

/// A handle in front of a message takes the place of what was read before.
pub proof fn law_later_handle_counts(
    before: Seq<char>,
    bytes: Seq<u8>,
    wire_type: u8,
    value: Seq<u8>,
    handle: Seq<char>,
    rest: Seq<u8>,
)
    requires
        bytes.len() > 0,
        read_key(bytes) == Ok::<_, Seq<char>>((1u32, wire_type, value)),
        read_text("FetchResults"@, "handle"@, wire_type, value) == Ok::<_, Seq<char>>(
            (handle, rest),
        ),
        rest.len() < bytes.len(),
    ensures
        read_handle(before, bytes) == read_handle(handle, rest),
{
}

/// The first field that can not be read is what is wrong with a message.
pub proof fn law_first_broken_field_counts(
    before: Seq<char>,
    bytes: Seq<u8>,
    tag: u32,
    wire_type: u8,
    value: Seq<u8>,
    fault: Seq<char>,
)
    requires
        bytes.len() > 0,
    ensures
        read_key(bytes) == Err::<(u32, u8, Seq<u8>), _>(fault) ==> read_handle(before, bytes)
            == Err::<Seq<char>, _>(fault),
        read_key(bytes) == Ok::<_, Seq<char>>((tag, wire_type, value)) && tag == 1 && read_text(
            "FetchResults"@,
            "handle"@,
            wire_type,
            value,
        ) == Err::<(Seq<char>, Seq<u8>), _>(fault) ==> read_handle(before, bytes) == Err::<
            Seq<char>,
            _,
        >(fault),
        read_key(bytes) == Ok::<_, Seq<char>>((tag, wire_type, value)) && tag != 1 && skip_value(
            wire_type,
            tag,
            value,
        ) == Err::<Seq<u8>, _>(fault) ==> read_handle(before, bytes) == Err::<Seq<char>, _>(fault),
{
}

/// What was read is seen whole: the handle, or what is wrong.
pub proof fn law_read_message_is_seen_whole(message: FetchResults, fault: String)
    ensures
        handle_view(Ok::<_, String>(message)) == Ok::<_, Seq<char>>(message.handle@),
        handle_view(Err::<FetchResults, _>(fault)) == Err::<Seq<char>, _>(fault@),
        unpack_fault(fault@) == parse_error_debug("Unable to decode Any value: "@ + fault@),
{
}

/// `prost::Message::encode_to_vec` of a `String`, which prost takes for a message with one
/// text field: writes nothing for the empty text, and otherwise the key of the first field, the
/// number of bytes and the bytes.
#[verifier::external_body]
fn encode_text_message(text: &String) -> (r: Vec<u8>)
    ensures
        r@ == text_message(text@),
{
    text.encode_to_vec()
}

/// `prost::Message::encode_to_vec` of an `arrow_flight::sql::Any`: writes its two fields, each
/// with its key, its number of bytes and its bytes, and leaves an empty one out.
#[verifier::external_body]
fn encode_any(type_url: &str, value: &[u8]) -> (r: Vec<u8>)
    ensures
        r@ == any_message(type_url@, value@),
{
    let any = arrow_flight::sql::Any {
        type_url: type_url.to_string(),
        value: value.to_vec().into(),
    };
    any.encode_to_vec()
}

/// `prost::encoding::decode_key`: what it reads is a function of the bytes, and it reads at
/// least one. A key of one byte holds the number of the field above the three bits of the wire
/// type.
#[verifier::external_body]
fn decode_key(bytes: &[u8]) -> (r: Result<FieldKey<'_>, String>)
    ensures
        key_view(r) == read_key(bytes@),
        is_key_of(r, bytes@),
{
    let mut rest = bytes;
    match prost::encoding::decode_key(&mut rest) {
        Ok((tag, wire_type)) => Ok(FieldKey { tag, wire_type: wire_type as u8, rest }),
        Err(error) => Err(error.to_string()),
    }
}

/// `prost::encoding::string::merge` into an empty text, with the names of the message and the
/// field that are read put in front of an error: what it reads is a function of the arguments.
/// Under the wire type of delimited bytes it reads back a text that was written as such.
#[verifier::external_body]
fn decode_text<'a>(
    message: &'static str,
    field: &'static str,
    wire_type: u8,
    bytes: &'a [u8],
) -> (r: Result<FieldText<'a>, String>)
    requires
        wire_type <= 5,
    ensures
        value_view(r) == read_text(message@, field@, wire_type, bytes@),
        is_text_of(r, wire_type, bytes@),
{
    let mut text = String::new();
    let mut rest = bytes;
    let wire_type = WireType::try_from(u64::from(wire_type)).unwrap();
    let context = DecodeContext::default();
    match prost::encoding::string::merge(wire_type, &mut text, &mut rest, context) {
        Ok(()) => Ok(FieldText { text, rest }),
        Err(mut error) => {
            error.push(message, field);
            Err(error.to_string())
        },
    }
}

/// `prost::encoding::skip_field`: what it leaves is a function of the arguments.
#[verifier::external_body]
fn skip_field<'a>(wire_type: u8, tag: u32, bytes: &'a [u8]) -> (r: Result<&'a [u8], String>)
    requires
        wire_type <= 5,
    ensures
        rest_view(r) == skip_value(wire_type, tag, bytes@),
        r matches Ok(rest) ==> rest@.len() <= bytes@.len(),
{
    let mut rest = bytes;
    let wire_type = WireType::try_from(u64::from(wire_type)).unwrap();
    match prost::encoding::skip_field(wire_type, tag, &mut rest, DecodeContext::default()) {
        Ok(()) => Ok(rest),
        Err(error) => Err(error.to_string()),
    }
}

/// `Debug` of `arrow_schema::ArrowError::ParseError`: the name of the variant, and the message
/// in quotes, with what is not plain in it escaped.
#[verifier::external_body]
fn show_parse_error(message: String) -> (r: String)
    ensures
        r@ == parse_error_debug(message@),
        is_plain(message@) ==> r@ == "ParseError(\""@ + message@ + "\")"@,
{
    format!("{:?}", ArrowError::ParseError(message))
}

} // verus!
