//! Who may open a session, and which session a request belongs to.

use vstd::prelude::*;
use vstd::string::StrSliceExecFns;
use vstd::utf8::decode_utf8;
use vstd::utf8::valid_utf8;

use crate::base64::base64_fault;
use crate::base64::base64_no_pad;
use crate::base64::base64_value;
use crate::base64::decode_base64;
use crate::base64::law_base64_is_injective;
use crate::metadata::ascii_text;
use crate::metadata::is_visible;
use crate::metadata::MetadataValue;
use crate::status::internal;
use crate::status::invalid_argument;
use crate::status::outcome;
use crate::status::unauthenticated;
use crate::status::Status;
use crate::status::StatusView;
use crate::text::join;
use crate::text::read_utf8;
use crate::text::same_text;
use crate::text::strip_prefix;

verus! {

/// Whether a text holds exactly one colon.
pub open spec fn has_one_colon(text: Seq<char>) -> bool {
    exists|i: int|
        0 <= i < text.len() && #[trigger] text[i] == ':' && (forall|j: int|
            0 <= j < text.len() && j != i ==> #[trigger] text[j] != ':')
}

/// A user name and a password as Basic authorization joins them.
pub open spec fn user_pass(user: Seq<char>, password: Seq<char>) -> Seq<char> {
    user + seq![':'] + password
}

/// What a pair of a user name and a password is answered.
pub open spec fn pair_verdict(pair: Seq<char>, user: Seq<char>, password: Seq<char>) -> Result<
    (),
    StatusView,
> {
    if !has_one_colon(pair) {
        Err(invalid_argument("Invalid authorization header"@))
    } else if pair != user_pass(user, password) {
        Err(unauthenticated("Invalid credentials!"@))
    } else {
        Ok(())
    }
}

/// What decoded credentials are answered: the bytes, or the text of the decoder's error.
pub open spec fn decoded_verdict(
    decoded: Result<Seq<u8>, Seq<char>>,
    user: Seq<char>,
    password: Seq<char>,
) -> Result<(), StatusView> {
    match decoded {
        Err(fault) => Err(
            invalid_argument("Failed to convert base64 to bytes: "@ + fault),
        ),
        Ok(bytes) => if !valid_utf8(bytes) {
            Err(invalid_argument("Failed to convert auth bytes to utf8."@))
        } else {
            pair_verdict(decode_utf8(bytes), user, password)
        },
    }
}

/// What the decoder says of the base64 text of credentials.
pub open spec fn decoded(text: Seq<char>) -> Result<Seq<u8>, Seq<char>> {
    match base64_value(text) {
        Some(bytes) => Ok(bytes),
        None => Err(base64_fault(text)),
    }
}

/// What an authorization header is answered when a session is asked for, with the user name
/// and the password that the server is set up with, as far as it is.
pub open spec fn handshake_verdict(
    authorization: Option<Seq<u8>>,
    user: Option<Seq<char>>,
    password: Option<Seq<char>>,
) -> Result<(), StatusView> {
    match authorization {
        None => Err(invalid_argument("authorization field not present"@)),
        Some(value) => if !is_visible(value) {
            Err(invalid_argument("authorization not parsable"@))
        } else if !"Basic "@.is_prefix_of(ascii_text(value)) {
            Err(invalid_argument("Auth type not implemented: "@ + ascii_text(value)))
        } else {
            match (user, password) {
                (None, _) => Err(
                    invalid_argument("Environment variable USERNAME not set."@),
                ),
                (_, None) => Err(
                    invalid_argument("Environment variable PASSWORD not set."@),
                ),
                (Some(u), Some(p)) => decoded_verdict(
                    decoded(ascii_text(value).skip("Basic "@.len() as int)),
                    u,
                    p,
                ),
            }
        },
    }
}

/// The session token that an authorization header names.
pub open spec fn bearer_token(authorization: Option<Seq<u8>>) -> Result<Seq<char>, StatusView> {
    match authorization {
        None => Err(internal("No authorization header!"@)),
        Some(value) => if !is_visible(value) {
            Err(internal("Error parsing header: "@ + "failed to convert metadata to a str"@))
        } else if !"Bearer "@.is_prefix_of(ascii_text(value)) {
            Err(internal("Invalid auth header!"@))
        } else {
            Ok(ascii_text(value).skip("Bearer "@.len() as int))
        },
    }
}

/// An optional text, seen as its characters.
pub open spec fn text_view(text: Option<&str>) -> Option<Seq<char>> {
    match text {
        Some(t) => Some(t@),
        None => None,
    }
}

/// An optional header value, seen as its bytes.
pub open spec fn header_view(value: Option<&MetadataValue>) -> Option<Seq<u8>> {
    match value {
        Some(v) => Some(v@),
        None => None,
    }
}

/// What a decoder returned, seen as bytes and text.
pub open spec fn decoded_view(decoded: Result<Vec<u8>, String>) -> Result<Seq<u8>, Seq<char>> {
    match decoded {
        Ok(bytes) => Ok(bytes@),
        Err(fault) => Err(fault@),
    }
}

/// Checks a pair of a user name and a password, joined by the only colon in it.
pub fn check_pair(pair: &str, user: &str, password: &str) -> (r: Result<(), Status>)
    ensures
        outcome(r) == pair_verdict(pair@, user@, password@),
{
    let len: usize = pair.unicode_len();
    let mut first: Option<usize> = None;
    let mut i: usize = 0;
    while i < len
        invariant
            i <= len == pair@.len(),
            match first {
                None => forall|j: int| 0 <= j < i ==> pair@[j] != ':',
                Some(at) => at < i && pair@[at as int] == ':' && (forall|j: int|
                    0 <= j < i && j != at ==> pair@[j] != ':'),
            },
        decreases len - i,
    {
        if pair.get_char(i) == ':' {
            if first.is_some() {
                let ghost at = first->0 as int;
                assert(pair@[at] == ':' && pair@[i as int] == ':' && at != i);
                assert(!has_one_colon(pair@));
                return Err(Status::invalid_argument("Invalid authorization header".to_owned()));
            }
            first = Some(i);
        }
        i = i + 1;
    }
    match first {
        None => {
            assert(!has_one_colon(pair@));
            Err(Status::invalid_argument("Invalid authorization header".to_owned()))
        },
        Some(at) => {
            assert(has_one_colon(pair@));
            let found_user = pair.substring_char(0, at);
            let found_password = pair.substring_char(at + 1, len);
            assert(pair@ =~= user_pass(found_user@, found_password@));
            if !same_text(found_user, user) || !same_text(found_password, password) {
                proof {
                    if pair@ == user_pass(user@, password@) {
                        assert(pair@[user@.len() as int] == ':');
                        assert(user@.len() == at);
                        assert(found_user@ =~= user@);
                        assert(found_password@ =~= password@);
                    }
                }
                return Err(Status::unauthenticated("Invalid credentials!".to_owned()));
            }
            Ok(())
        },
    }
}

/// Checks what the credentials of a Basic authorization were decoded to.
pub fn check_decoded(decoded: Result<Vec<u8>, String>, user: &str, password: &str) -> (r: Result<
    (),
    Status,
>)
    ensures
        outcome(r) == decoded_verdict(decoded_view(decoded), user@, password@),
{
    match decoded {
        Err(fault) => Err(
            Status::invalid_argument(
                join("Failed to convert base64 to bytes: ".to_owned(), fault.as_str()),
            ),
        ),
        Ok(bytes) => match read_utf8(bytes.as_slice()) {
            Err(_) => Err(
                Status::invalid_argument("Failed to convert auth bytes to utf8.".to_owned()),
            ),
            Ok(pair) => check_pair(pair.as_str(), user, password),
        },
    }
}

/// Checks the authorization header of a request for a session against the user name and the
/// password that the server is set up with.
pub fn check_handshake(
    authorization: Option<&MetadataValue>,
    user: Option<&str>,
    password: Option<&str>,
) -> (r: Result<(), Status>)
    ensures
        outcome(r) == handshake_verdict(
            header_view(authorization),
            text_view(user),
            text_view(password),
        ),
{
    let value = match authorization {
        None => {
            return Err(Status::invalid_argument("authorization field not present".to_owned()));
        },
        Some(value) => value,
    };
    let text = match value.to_str() {
        Err(_) => {
            return Err(Status::invalid_argument("authorization not parsable".to_owned()));
        },
        Ok(text) => text,
    };
    let credentials = match strip_prefix(text.as_str(), "Basic ") {
        None => {
            return Err(
                Status::invalid_argument(
                    join("Auth type not implemented: ".to_owned(), text.as_str()),
                ),
            );
        },
        Some(credentials) => credentials,
    };
    assert(credentials@ =~= text@.skip("Basic "@.len() as int));
    let user = match user {
        None => {
            return Err(
                Status::invalid_argument("Environment variable USERNAME not set.".to_owned()),
            );
        },
        Some(user) => user,
    };
    let password = match password {
        None => {
            return Err(
                Status::invalid_argument("Environment variable PASSWORD not set.".to_owned()),
            );
        },
        Some(password) => password,
    };
    let bytes = decode_base64(credentials);
    proof {
        if bytes is Ok {
            let back = choose|c: Seq<u8>| credentials@ == #[trigger] base64_no_pad(c);
            law_base64_is_injective(bytes->Ok_0@, back);
        }
    }
    check_decoded(bytes, user, password)
}

/// The session token in the authorization header of a request.
pub fn find_token(authorization: Option<&MetadataValue>) -> (r: Result<String, Status>)
    ensures
        match r {
            Ok(token) => bearer_token(header_view(authorization)) == Ok::<Seq<char>, StatusView>(
                token@,
            ),
            Err(status) => bearer_token(header_view(authorization)) == Err::<
                Seq<char>,
                StatusView,
            >(status@),
        },
{
    let value = match authorization {
        None => {
            return Err(Status::internal("No authorization header!".to_owned()));
        },
        Some(value) => value,
    };
    let text = match value.to_str() {
        Err(fault) => {
            return Err(
                Status::internal(join("Error parsing header: ".to_owned(), fault.as_str())),
            );
        },
        Ok(text) => text,
    };
    match strip_prefix(text.as_str(), "Bearer ") {
        None => Err(Status::internal("Invalid auth header!".to_owned())),
        Some(token) => {
            assert(token@ =~= text@.skip("Bearer "@.len() as int));
            Ok(token.to_owned())
        },
    }
}

} // verus!
