//! Base64 in the standard alphabet, without padding.

use base64::Engine;
use vstd::prelude::*;

verus! {

/// The symbol that stands for six bits.
pub open spec fn symbol(six_bits: int) -> char {
    if six_bits < 26 {
        ('A' as int + six_bits) as char
    } else if six_bits < 52 {
        ('a' as int + six_bits - 26) as char
    } else if six_bits < 62 {
        ('0' as int + six_bits - 52) as char
    } else if six_bits == 62 {
        '+'
    } else {
        '/'
    }
}

/// The base64 text of some bytes: four symbols for every three bytes, and two or three symbols
/// for the one or two bytes that may be left.
pub open spec fn base64_no_pad(bytes: Seq<u8>) -> Seq<char>
    decreases bytes.len(),
{
    if bytes.len() == 0 {
        Seq::empty()
    } else if bytes.len() == 1 {
        seq![symbol(bytes[0] as int / 4), symbol(bytes[0] as int % 4 * 16)]
    } else if bytes.len() == 2 {
        seq![
            symbol(bytes[0] as int / 4),
            symbol(bytes[0] as int % 4 * 16 + bytes[1] as int / 16),
            symbol(bytes[1] as int % 16 * 4),
        ]
    } else {
        seq![
            symbol(bytes[0] as int / 4),
            symbol(bytes[0] as int % 4 * 16 + bytes[1] as int / 16),
            symbol(bytes[1] as int % 16 * 4 + bytes[2] as int / 64),
            symbol(bytes[2] as int % 64),
        ] + base64_no_pad(bytes.skip(3))
    }
}

/// The bytes that a text is the base64 of, if there are any.
pub open spec fn base64_value(text: Seq<char>) -> Option<Seq<u8>> {
    if exists|bytes: Seq<u8>| text == #[trigger] base64_no_pad(bytes) {
        Some(choose|bytes: Seq<u8>| text == #[trigger] base64_no_pad(bytes))
    } else {
        None
    }
}

proof fn lemma_symbol_injective(a: int, b: int)
    requires
        0 <= a < 64,
        0 <= b < 64,
        symbol(a) == symbol(b),
    ensures
        a == b,
{
    assert(symbol(a) as int == symbol(b) as int);
}

/// No two byte strings have the same base64 text.
pub proof fn law_base64_is_injective(a: Seq<u8>, b: Seq<u8>)
    requires
        base64_no_pad(a) == base64_no_pad(b),
    ensures
        a == b,
    decreases a.len(),
{
    let s = base64_no_pad(a);
    let t = base64_no_pad(b);
    if a.len() >= 3 && b.len() >= 3 {
        lemma_first_group(a);
        lemma_first_group(b);
        lemma_symbol_injective(a[0] as int / 4, b[0] as int / 4);
        lemma_symbol_injective(
            a[0] as int % 4 * 16 + a[1] as int / 16,
            b[0] as int % 4 * 16 + b[1] as int / 16,
        );
        lemma_symbol_injective(
            a[1] as int % 16 * 4 + a[2] as int / 64,
            b[1] as int % 16 * 4 + b[2] as int / 64,
        );
        lemma_symbol_injective(a[2] as int % 64, b[2] as int % 64);
        law_base64_is_injective(a.skip(3), b.skip(3));
        assert(a =~= seq![a[0], a[1], a[2]] + a.skip(3));
        assert(b =~= seq![b[0], b[1], b[2]] + b.skip(3));
        assert(a[0] == b[0] && a[1] == b[1] && a[2] == b[2]);
    } else {
        assert(a.len() == b.len()) by {
            lemma_length(a);
            lemma_length(b);
        }
        if a.len() == 1 {
            assert(s[0] == t[0] && s[1] == t[1]);
            lemma_symbol_injective(a[0] as int / 4, b[0] as int / 4);
            lemma_symbol_injective(a[0] as int % 4 * 16, b[0] as int % 4 * 16);
        } else if a.len() == 2 {
            assert(s[0] == t[0] && s[1] == t[1] && s[2] == t[2]);
            lemma_symbol_injective(a[0] as int / 4, b[0] as int / 4);
            lemma_symbol_injective(
                a[0] as int % 4 * 16 + a[1] as int / 16,
                b[0] as int % 4 * 16 + b[1] as int / 16,
            );
            lemma_symbol_injective(a[1] as int % 16 * 4, b[1] as int % 16 * 4);
        }
        assert(a =~= b);
    }
}

/// How the text of three bytes or more begins, and how it goes on.
proof fn lemma_first_group(bytes: Seq<u8>)
    requires
        bytes.len() >= 3,
    ensures
        base64_no_pad(bytes)[0] == symbol(bytes[0] as int / 4),
        base64_no_pad(bytes)[1] == symbol(bytes[0] as int % 4 * 16 + bytes[1] as int / 16),
        base64_no_pad(bytes)[2] == symbol(bytes[1] as int % 16 * 4 + bytes[2] as int / 64),
        base64_no_pad(bytes)[3] == symbol(bytes[2] as int % 64),
        base64_no_pad(bytes).skip(4) == base64_no_pad(bytes.skip(3)),
{
    assert(base64_no_pad(bytes).skip(4) =~= base64_no_pad(bytes.skip(3)));
}

/// A text of three bytes or more is longer than that of fewer.
proof fn lemma_length(bytes: Seq<u8>)
    ensures
        bytes.len() == 0 ==> base64_no_pad(bytes).len() == 0,
        bytes.len() == 1 ==> base64_no_pad(bytes).len() == 2,
        bytes.len() == 2 ==> base64_no_pad(bytes).len() == 3,
        bytes.len() >= 3 ==> base64_no_pad(bytes).len() >= 4,
{
}

/// What a text is the base64 of is read back from it.
pub proof fn law_base64_round_trip(bytes: Seq<u8>)
    ensures
        base64_value(base64_no_pad(bytes)) == Some(bytes),
{
    let text = base64_no_pad(bytes);
    let back = choose|b: Seq<u8>| text == #[trigger] base64_no_pad(b);
    law_base64_is_injective(bytes, back);
}

/// Base64 without padding holds no `=`.
pub proof fn law_padding_is_no_base64(text: Seq<char>)
    requires
        text.contains('='),
    ensures
        base64_value(text) is None,
{
    if base64_value(text) is Some {
        let bytes = choose|b: Seq<u8>| text == #[trigger] base64_no_pad(b);
        lemma_no_equals_sign(bytes);
    }
}

proof fn lemma_no_equals_sign(bytes: Seq<u8>)
    ensures
        !base64_no_pad(bytes).contains('='),
    decreases bytes.len(),
{
    let text = base64_no_pad(bytes);
    if bytes.len() >= 3 {
        lemma_no_equals_sign(bytes.skip(3));
        assert forall|i: int| 0 <= i < text.len() implies text[i] != '=' by {
            if i >= 4 {
                assert(text[i] == base64_no_pad(bytes.skip(3))[i - 4]);
            }
        }
    }
}

/// Why a text is no base64, in the words of `base64::DecodeError`.
pub uninterp spec fn base64_fault(text: Seq<char>) -> Seq<char>;

/// `decode` of `base64::engine::general_purpose::STANDARD_NO_PAD`. That engine takes the
/// standard alphabet, no padding and no stray bits in the last symbol, so it accepts exactly
/// the texts that it would itself write, and gives back the bytes that they were written for.
/// On any other text it fails, with the message that is returned.
#[verifier::external_body]
pub(crate) fn decode_base64(text: &str) -> (r: Result<Vec<u8>, String>)
    ensures
        match r {
            Ok(bytes) => text@ == base64_no_pad(bytes@),
            Err(fault) => (forall|bytes: Seq<u8>| text@ != #[trigger] base64_no_pad(bytes))
                && fault@ == base64_fault(text@),
        },
{
    base64::engine::general_purpose::STANDARD_NO_PAD.decode(text).map_err(|e| e.to_string())
}

} // verus!
