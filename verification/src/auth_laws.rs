//! What a handshake and a request for a session are answered, in terms of the headers that the
//! client sends.

use datafusion::prelude::SessionContext;
use std::sync::Arc;
use vstd::prelude::*;
use vstd::utf8::decode_utf8;
use vstd::utf8::encode_utf8;
use vstd::utf8::encode_utf8_decode_utf8;
use vstd::utf8::encode_utf8_valid_utf8;
use vstd::utf8::valid_utf8;

use crate::auth::bearer_token;
use crate::auth::decoded;
use crate::auth::decoded_verdict;
use crate::auth::decoded_view;
use crate::auth::handshake_verdict;
use crate::auth::has_one_colon;
use crate::auth::header_view;
use crate::auth::pair_verdict;
use crate::auth::text_view;
use crate::base64::base64_fault;
use crate::base64::base64_no_pad;
use crate::base64::law_base64_round_trip;
use crate::handle::is_handle;
use crate::laws::basic_header;
use crate::laws::lemma_base64_is_visible;
use crate::laws::lemma_visible_text;
use crate::metadata::ascii_bytes;
use crate::metadata::ascii_text;
use crate::metadata::is_visible;
use crate::metadata::MetadataValue;
use crate::service::context_status;
use crate::service::has_functions;
use crate::service::hands_out;
use crate::service::takes_functions;
use crate::service::Change;
use crate::service::ContextFault;
use crate::service::HandshakeReply;
use crate::service::ServiceView;
use crate::status::Code;
use crate::status::StatusView;
use crate::udf::SessionFunction;

verus! {

/// A header with the base64 of some bytes behind `Basic ` can be read, and what is behind is
/// found.
proof fn lemma_basic_header(bytes: Seq<u8>, value: Seq<u8>)
    requires
        value == ascii_bytes("Basic "@ + base64_no_pad(bytes)),
    ensures
        is_visible(value),
        ascii_text(value) == "Basic "@ + base64_no_pad(bytes),
        "Basic "@.is_prefix_of(ascii_text(value)),
        ascii_text(value).skip("Basic "@.len() as int) == base64_no_pad(bytes),
{
    let credentials = base64_no_pad(bytes);
    let text = "Basic "@ + credentials;
    reveal_strlit("Basic ");
    lemma_base64_is_visible(bytes);
    assert forall|i: int| 0 <= i < text.len() implies ' ' <= #[trigger] text[i] <= 'z' by {
        if i >= 6 {
            assert(text[i] == credentials[i - 6]);
        }
    }
    lemma_visible_text(text);
    assert(text.skip("Basic "@.len() as int) =~= credentials);
}

/// A client that sends a user name and a password, whatever they are but for colons, is let in
/// where both are the server's, and is refused as not authenticated where one of them is not.
pub proof fn law_credentials_are_compared(
    sent_user: Seq<char>,
    sent_password: Seq<char>,
    user: Seq<char>,
    password: Seq<char>,
)
    requires
        !sent_user.contains(':'),
        !sent_password.contains(':'),
    ensures
        sent_user == user && sent_password == password ==> {
            &&& pair_verdict(sent_user + seq![':'] + sent_password, user, password) is Ok
            &&& decoded_verdict(
                Ok(encode_utf8(sent_user + seq![':'] + sent_password)),
                user,
                password,
            ) is Ok
            &&& handshake_verdict(
                Some(basic_header(sent_user, sent_password)),
                Some(user),
                Some(password),
            ) is Ok
        },
        sent_user != user || sent_password != password ==> {
            &&& pair_verdict(sent_user + seq![':'] + sent_password, user, password) == Err::<(), _>(
                StatusView { code: Code::Unauthenticated, message: "Invalid credentials!"@ },
            )
            &&& decoded_verdict(
                Ok(encode_utf8(sent_user + seq![':'] + sent_password)),
                user,
                password,
            ) == Err::<(), _>(
                StatusView { code: Code::Unauthenticated, message: "Invalid credentials!"@ },
            )
            &&& handshake_verdict(
                Some(basic_header(sent_user, sent_password)),
                Some(user),
                Some(password),
            ) == Err::<(), _>(
                StatusView { code: Code::Unauthenticated, message: "Invalid credentials!"@ },
            )
        },
{
    let pair = sent_user + seq![':'] + sent_password;
    let bytes = encode_utf8(pair);
    lemma_basic_header(bytes, basic_header(sent_user, sent_password));
    law_base64_round_trip(bytes);
    encode_utf8_valid_utf8(pair);
    encode_utf8_decode_utf8(pair);
    let at = sent_user.len() as int;
    assert(pair[at] == ':');
    assert forall|j: int| 0 <= j < pair.len() && j != at implies #[trigger] pair[j] != ':' by {
        if j < at {
            assert(sent_user.contains(sent_user[j]));
        } else {
            assert(pair[j] == sent_password[j - at - 1]);
            assert(sent_password.contains(sent_password[j - at - 1]));
        }
    }
    assert(has_one_colon(pair));
    let own = user + seq![':'] + password;
    if pair == own {
        assert(own[user.len() as int] == ':');
        assert(user.len() == at);
        assert(sent_user =~= pair.take(at));
        assert(user =~= own.take(at));
        assert(sent_password =~= pair.skip(at + 1));
        assert(password =~= own.skip(at + 1));
    }
}

/// Credentials without a colon, or with more than one, are no pair of a user name and a password.
pub proof fn law_credentials_have_one_colon(
    text: Seq<char>,
    user: Seq<char>,
    password: Seq<char>,
    i: int,
    j: int,
)
    requires
        !text.contains(':') || (0 <= i < j < text.len() && text[i] == ':' && text[j] == ':'),
    ensures
        pair_verdict(text, user, password) == Err::<(), _>(
            StatusView { code: Code::InvalidArgument, message: "Invalid authorization header"@ },
        ),
        decoded_verdict(Ok(encode_utf8(text)), user, password) == Err::<(), _>(
            StatusView { code: Code::InvalidArgument, message: "Invalid authorization header"@ },
        ),
        handshake_verdict(
            Some(
                ascii_bytes("Basic "@ + base64_no_pad(encode_utf8(text))),
            ),
            Some(user),
            Some(password),
        ) == Err::<(), _>(
            StatusView { code: Code::InvalidArgument, message: "Invalid authorization header"@ },
        ),
{
    let bytes = encode_utf8(text);
    lemma_basic_header(bytes, ascii_bytes("Basic "@ + base64_no_pad(bytes)));
    law_base64_round_trip(bytes);
    encode_utf8_valid_utf8(text);
    encode_utf8_decode_utf8(text);
    if has_one_colon(text) {
        let at = choose|k: int|
            0 <= k < text.len() && #[trigger] text[k] == ':' && (forall|l: int|
                0 <= l < text.len() && l != k ==> #[trigger] text[l] != ':');
        assert(text.contains(text[at]));
        assert(i == at && j == at);
    }
}

/// Credentials that are no text are refused.
pub proof fn law_credentials_are_text(bytes: Seq<u8>, user: Seq<char>, password: Seq<char>)
    requires
        !valid_utf8(bytes),
    ensures
        decoded_verdict(Ok(bytes), user, password) == Err::<(), _>(
            StatusView {
                code: Code::InvalidArgument,
                message: "Failed to convert auth bytes to utf8."@,
            },
        ),
        handshake_verdict(
            Some(ascii_bytes("Basic "@ + base64_no_pad(bytes))),
            Some(user),
            Some(password),
        ) == Err::<(), _>(
            StatusView {
                code: Code::InvalidArgument,
                message: "Failed to convert auth bytes to utf8."@,
            },
        ),
{
    lemma_basic_header(bytes, ascii_bytes("Basic "@ + base64_no_pad(bytes)));
    law_base64_round_trip(bytes);
}

/// Credentials that are not the base64 of anything are refused, with what the decoder says.
pub proof fn law_credentials_are_base64(
    value: Seq<u8>,
    credentials: Seq<char>,
    user: Seq<char>,
    password: Seq<char>,
    fault: Seq<char>,
)
    requires
        is_visible(value),
        ascii_text(value) == "Basic "@ + credentials,
        forall|bytes: Seq<u8>| credentials != #[trigger] base64_no_pad(bytes),
    ensures
        handshake_verdict(Some(value), Some(user), Some(password)) == Err::<(), _>(
            StatusView {
                code: Code::InvalidArgument,
                message: "Failed to convert base64 to bytes: "@ + base64_fault(credentials),
            },
        ),
        decoded_verdict(Err(fault), user, password) == Err::<(), _>(
            StatusView {
                code: Code::InvalidArgument,
                message: "Failed to convert base64 to bytes: "@ + fault,
            },
        ),
        decoded(credentials) == Err::<Seq<u8>, _>(base64_fault(credentials)),
{
    assert(("Basic "@ + credentials).skip("Basic "@.len() as int) =~= credentials);
}

/// Base64 is decoded to what it was made of.
pub proof fn law_base64_is_decoded(bytes: Seq<u8>)
    ensures
        decoded(base64_no_pad(bytes)) == Ok::<_, Seq<char>>(bytes),
{
    law_base64_round_trip(bytes);
}

/// Without a header, with one that can not be read, and with one of another scheme, a handshake
/// is refused, whatever user name and password the server is set up with.
pub proof fn law_handshake_needs_basic_authorization(
    value: Seq<u8>,
    user: Option<Seq<char>>,
    password: Option<Seq<char>>,
)
    ensures
        handshake_verdict(None, user, password) == Err::<(), _>(
            StatusView {
                code: Code::InvalidArgument,
                message: "authorization field not present"@,
            },
        ),
        !is_visible(value) ==> handshake_verdict(Some(value), user, password) == Err::<(), _>(
            StatusView { code: Code::InvalidArgument, message: "authorization not parsable"@ },
        ),
        is_visible(value) && !"Basic "@.is_prefix_of(ascii_text(value)) ==> handshake_verdict(
            Some(value),
            user,
            password,
        ) == Err::<(), _>(
            StatusView {
                code: Code::InvalidArgument,
                message: "Auth type not implemented: "@ + ascii_text(value),
            },
        ),
{
}

/// A server that is set up with no user name lets nobody in, nor does one with no password,
/// whatever credentials are sent.
pub proof fn law_handshake_needs_a_configured_user(
    value: Seq<u8>,
    credentials: Seq<char>,
    user: Seq<char>,
    password: Option<Seq<char>>,
)
    requires
        is_visible(value),
        ascii_text(value) == "Basic "@ + credentials,
    ensures
        handshake_verdict(Some(value), None, password) == Err::<(), _>(
            StatusView {
                code: Code::InvalidArgument,
                message: "Environment variable USERNAME not set."@,
            },
        ),
        handshake_verdict(Some(value), Some(user), None) == Err::<(), _>(
            StatusView {
                code: Code::InvalidArgument,
                message: "Environment variable PASSWORD not set."@,
            },
        ),
{
}

/// A header with a token names that token, and opens the context that is kept under it. One that
/// names a token under which nothing is kept is told which.
pub proof fn law_header_opens_the_named_context(
    service: ServiceView,
    value: Seq<u8>,
    token: Seq<char>,
)
    requires
        is_visible(value),
        ascii_text(value) == "Bearer "@ + token,
    ensures
        bearer_token(Some(value)) == Ok::<_, StatusView>(token),
        service.contexts.dom().contains(token) ==> service.context_of(Some(value)) == Ok::<
            _,
            StatusView,
        >(service.contexts[token]),
        !service.contexts.dom().contains(token) ==> service.context_of(Some(value)) == Err::<
            Arc<SessionContext>,
            _,
        >(
            StatusView {
                code: Code::Internal,
                message: "Context handle not found: "@ + token,
            },
        ),
{
    assert(("Bearer "@ + token).skip("Bearer "@.len() as int) =~= token);
}

/// Without a header, with one that can not be read, and with one that holds no token, no context
/// is opened.
pub proof fn law_request_needs_a_token(service: ServiceView, value: Seq<u8>)
    ensures
        service.context_of(None) == Err::<Arc<SessionContext>, _>(
            StatusView { code: Code::Internal, message: "No authorization header!"@ },
        ),
        !is_visible(value) ==> service.context_of(Some(value)) == Err::<Arc<SessionContext>, _>(
            StatusView {
                code: Code::Internal,
                message: "Error parsing header: "@ + "failed to convert metadata to a str"@,
            },
        ),
        is_visible(value) && !"Bearer "@.is_prefix_of(ascii_text(value)) ==> service.context_of(
            Some(value),
        ) == Err::<Arc<SessionContext>, _>(
            StatusView { code: Code::Internal, message: "Invalid auth header!"@ },
        ),
{
}

/// A handshake answers with a token twice: as the bytes of the message, and in the header by
/// which the client opens the context that was made for it.
pub proof fn law_reply_opens_the_context(
    service: ServiceView,
    reply: HandshakeReply,
    token: Seq<char>,
    context: Arc<SessionContext>,
)
    requires
        is_handle(token),
        hands_out(reply, token),
    ensures
        reply.protocol_version == 0,
        reply.payload@ == encode_utf8(token),
        is_visible(reply.authorization@),
        ascii_text(reply.authorization@) == "Bearer "@ + token,
        service.after(Change::Open(token, context)).context_of(Some(reply.authorization@)) == Ok::<
            _,
            StatusView,
        >(context),
{
    let text = "Bearer "@ + token;
    reveal_strlit("Bearer ");
    assert forall|i: int| 0 <= i < text.len() implies ' ' <= #[trigger] text[i] <= 'z' by {
        if i >= 7 {
            assert(text[i] == token[i - 7]);
        }
    }
    lemma_visible_text(text);
    law_header_opens_the_named_context(
        service.after(Change::Open(token, context)),
        reply.authorization@,
        token,
    );
}

/// Where no context could be made, the client is told which part of it failed and why.
pub proof fn law_context_faults_are_told(error: String)
    ensures
        context_status(ContextFault::Config(error)) == (StatusView {
            code: Code::Internal,
            message: "Error building plan: "@ + error@,
        }),
        context_status(ContextFault::Catalogs(error)) == (StatusView {
            code: Code::Internal,
            message: "Error creating catalogs: "@ + error@,
        }),
{
}

/// A context takes the functions of a session wherever each of them may be registered in it.
pub proof fn law_context_takes_what_may_be_registered<G: Fn(&SessionContext, SessionFunction)>(
    register: G,
    context: SessionContext,
)
    requires
        call_requires(register, (&context, SessionFunction::CurrentSchema)),
        call_requires(register, (&context, SessionFunction::CurrentDatabase)),
    ensures
        takes_functions(register, context),
{
}

/// In a context that has the functions of a session, each of them was registered.
pub proof fn law_context_has_every_function<G: Fn(&SessionContext, SessionFunction)>(
    register: G,
    context: SessionContext,
)
    requires
        has_functions(register, context),
    ensures
        call_ensures(register, (&context, SessionFunction::CurrentSchema), ()),
        call_ensures(register, (&context, SessionFunction::CurrentDatabase), ()),
{
}

/// Headers, user names and passwords are seen whole.
pub proof fn law_credentials_are_seen_whole(
    text: &str,
    value: &MetadataValue,
    bytes: Vec<u8>,
    fault: String,
)
    ensures
        text_view(Some(text)) == Some(text@),
        text_view(None) is None,
        header_view(Some(value)) == Some(value@),
        header_view(None) is None,
        decoded_view(Ok(bytes)) == Ok::<_, Seq<char>>(bytes@),
        decoded_view(Err(fault)) == Err::<Seq<u8>, _>(fault@),
{
}

} // verus!
