//! The names that sessions and prepared statements are known by.

use vstd::prelude::*;
use vstd::set_lib::lemma_len_subset;
use vstd::string::StrSliceExecFns;

use crate::text::join;

verus! {

pub open spec fn is_lower_hex(c: char) -> bool {
    '0' <= c <= '9' || 'a' <= c <= 'f'
}

/// Whether a text is a random UUID in lower case with hyphens.
pub open spec fn is_handle(text: Seq<char>) -> bool {
    &&& text.len() == 36
    &&& forall|i: int|
        0 <= i < 36 ==> if i == 8 || i == 13 || i == 18 || i == 23 {
            #[trigger] text[i] == '-'
        } else {
            is_lower_hex(text[i])
        }
    &&& text[14] == '4'
    &&& '8' <= text[19] <= '9' || 'a' <= text[19] <= 'b'
}

/// `uuid::Uuid::new_v4`, written by `hyphenated`: a new random UUID, of which only the form is
/// known.
#[verifier::external_body]
pub(crate) fn new_handle() -> (r: String)
    ensures
        is_handle(r@),
{
    uuid::Uuid::new_v4().hyphenated().to_string()
}

/// A digit to the base of sixteen.
pub open spec fn hex_digit(value: nat) -> char {
    if value < 10 {
        ('0' as int + value) as char
    } else {
        ('a' as int + value - 10) as char
    }
}

/// A number to the base of sixteen, written with a number of digits.
pub open spec fn hex_text(value: nat, digits: nat) -> Seq<char>
    decreases digits,
{
    if digits == 0 {
        Seq::empty()
    } else {
        hex_text(value / 16, (digits - 1) as nat).push(hex_digit(value % 16))
    }
}

/// How many numbers can be written with a number of digits.
pub open spec fn hex_count(digits: nat) -> nat
    decreases digits,
{
    if digits == 0 {
        1
    } else {
        16 * hex_count((digits - 1) as nat)
    }
}

/// How many handles differ from a handle in their last part alone.
pub const SIBLINGS: u64 = 0x1_0000_0000_0000;

/// A handle with another last part.
pub open spec fn sibling(handle: Seq<char>, n: nat) -> Seq<char> {
    handle.take(24) + hex_text(n, 12)
}

/// Whether so many handles are in use that all handles which differ in their last part alone
/// can be among them: more than there is memory for.
pub open spec fn is_crowded(used: Set<Seq<char>>) -> bool {
    exists|handles: Seq<Seq<char>>|
        handles.len() == SIBLINGS && #[trigger] handles.no_duplicates() && forall|i: int|
            0 <= i < handles.len() ==> used.contains(#[trigger] handles[i])
}

/// Whether a handle is not in use yet, where it can be so.
pub open spec fn is_new(handle: Seq<char>, used: Set<Seq<char>>) -> bool {
    used.contains(handle) ==> is_crowded(used)
}

proof fn lemma_hex_text(value: nat, digits: nat)
    ensures
        hex_text(value, digits).len() == digits,
        forall|i: int| 0 <= i < digits ==> is_lower_hex(#[trigger] hex_text(value, digits)[i]),
    decreases digits,
{
    if digits > 0 {
        lemma_hex_text(value / 16, (digits - 1) as nat);
        let text = hex_text(value, digits);
        let head = hex_text(value / 16, (digits - 1) as nat);
        assert forall|i: int| 0 <= i < digits implies is_lower_hex(#[trigger] text[i]) by {
            if i < digits - 1 {
                assert(text[i] == head[i]);
            }
        }
    }
}

proof fn lemma_hex_text_injective(a: nat, b: nat, digits: nat)
    requires
        a < hex_count(digits),
        b < hex_count(digits),
        hex_text(a, digits) == hex_text(b, digits),
    ensures
        a == b,
    decreases digits,
{
    if digits > 0 {
        let k = (digits - 1) as nat;
        let (s, t) = (hex_text(a, digits), hex_text(b, digits));
        lemma_hex_text(a / 16, k);
        lemma_hex_text(b / 16, k);
        assert(s.last() == hex_digit(a % 16) && t.last() == hex_digit(b % 16));
        assert(hex_digit(a % 16) as int == hex_digit(b % 16) as int);
        assert(s.drop_last() =~= hex_text(a / 16, k));
        assert(t.drop_last() =~= hex_text(b / 16, k));
        lemma_hex_text_injective(a / 16, b / 16, k);
    }
}

/// A handle with another last part is a handle.
pub proof fn lemma_sibling_is_handle(handle: Seq<char>, n: nat)
    requires
        is_handle(handle),
    ensures
        is_handle(sibling(handle, n)),
{
    lemma_hex_text(n, 12);
    let text = sibling(handle, n);
    assert forall|i: int| 0 <= i < 36 implies if i == 8 || i == 13 || i == 18 || i == 23 {
        #[trigger] text[i] == '-'
    } else {
        is_lower_hex(text[i])
    } by {
        if i < 24 {
            assert(text[i] == handle[i]);
        } else {
            assert(text[i] == hex_text(n, 12)[i - 24]);
        }
    }
    assert(text[14] == handle[14]);
    assert(text[19] == handle[19]);
}

/// Where all handles that differ in their last part alone are in use, the handles in use are
/// crowded.
pub proof fn lemma_siblings_crowd(handle: Seq<char>, used: Set<Seq<char>>)
    requires
        is_handle(handle),
        forall|n: nat| n < SIBLINGS ==> used.contains(#[trigger] sibling(handle, n)),
    ensures
        is_crowded(used),
{
    let handles = Seq::new(SIBLINGS as nat, |i: int| sibling(handle, i as nat));
    assert(hex_count(12) == SIBLINGS) by {
        reveal_with_fuel(hex_count, 13);
    }
    assert forall|i: int, j: int| 0 <= i < handles.len() && 0 <= j < handles.len() && i != j implies
        handles[i] != handles[j] by {
        let (a, b) = (i as nat, j as nat);
        if sibling(handle, a) == sibling(handle, b) {
            assert(sibling(handle, a).skip(24) =~= hex_text(a, 12));
            assert(sibling(handle, b).skip(24) =~= hex_text(b, 12));
            lemma_hex_text_injective(a, b, 12);
        }
    }
    assert(handles.no_duplicates());
    assert forall|i: int| 0 <= i < handles.len() implies used.contains(#[trigger] handles[i]) by {
        assert(handles[i] == sibling(handle, i as nat));
    }
}

/// A new handle names nothing that is kept, where less is kept than there could be handles that
/// differ in their last part alone.
pub proof fn law_new_handle_is_unused(handle: Seq<char>, used: Set<Seq<char>>)
    requires
        is_new(handle, used),
        used.finite(),
        used.len() < 0x1_0000_0000_0000,
    ensures
        !used.contains(handle),
{
    if used.contains(handle) {
        let handles = choose|handles: Seq<Seq<char>>|
            handles.len() == SIBLINGS && #[trigger] handles.no_duplicates() && forall|i: int|
                0 <= i < handles.len() ==> used.contains(#[trigger] handles[i]);
        handles.unique_seq_to_set();
        assert forall|h: Seq<char>| handles.to_set().contains(h) implies used.contains(h) by {
            assert(handles.contains(h));
        }
        lemma_len_subset(handles.to_set(), used);
    }
}

/// A handle has five parts of digits to the base of sixteen, in lower case, with hyphens between
/// them. The third part says that it is random, and the fourth how it is laid out.
pub proof fn law_handle_is_a_random_uuid(handle: Seq<char>)
    requires
        is_handle(handle),
    ensures
        handle.len() == 36,
        forall|i: int|
            0 <= i < 36 ==> (#[trigger] handle[i] == '-' <==> i == 8 || i == 13 || i == 18 || i
                == 23),
        forall|i: int|
            0 <= i < 36 && #[trigger] handle[i] != '-' ==> '0' <= handle[i] <= '9' || 'a'
                <= handle[i] <= 'f',
        handle[14] == '4',
        handle[19] == '8' || handle[19] == '9' || handle[19] == 'a' || handle[19] == 'b',
{
}

/// A digit to the base of sixteen.
fn digit_text(value: u64) -> (r: &'static str)
    requires
        value < 16,
    ensures
        r@ == seq![hex_digit(value as nat)],
{
    let digits = "0123456789abcdef";
    proof {
        reveal_strlit("0123456789abcdef");
    }
    let at: usize = value as usize;
    let digit = digits.substring_char(at, at + 1);
    assert(digit@ =~= seq![hex_digit(value as nat)]);
    digit
}

/// A number to the base of sixteen, written with a number of digits.
fn write_hex(value: u64, digits: usize) -> (r: String)
    ensures
        r@ == hex_text(value as nat, digits as nat),
    decreases digits,
{
    if digits == 0 {
        return String::new();
    }
    let r = join(write_hex(value / 16, digits - 1), digit_text(value % 16));
    assert(r@ =~= hex_text(value as nat, digits as nat));
    r
}

/// A handle with another last part.
pub(crate) fn make_sibling(handle: &str, n: u64) -> (r: String)
    requires
        is_handle(handle@),
    ensures
        r@ == sibling(handle@, n as nat),
{
    let head = handle.substring_char(0, 24);
    let r = join(head.to_owned(), write_hex(n, 12).as_str());
    assert(r@ =~= sibling(handle@, n as nat));
    r
}

} // verus!
