//! What holds of the server as a whole: who gets a session, what a session can reach, and what
//! a prepared statement leaves alone.

use datafusion::logical_expr::LogicalPlan;
use datafusion::prelude::SessionContext;
use std::sync::Arc;
use vstd::prelude::*;
use vstd::utf8::decode_utf8_encode_utf8;
use vstd::utf8::encode_utf8;
use vstd::utf8::encode_utf8_decode_utf8;
use vstd::utf8::encode_utf8_valid_utf8;

use crate::auth::bearer_token;
use crate::auth::handshake_verdict;
use crate::auth::has_one_colon;
use crate::base64::base64_no_pad;
use crate::base64::base64_value;
use crate::base64::law_base64_round_trip;
use crate::base64::law_padding_is_no_base64;
use crate::binding::bound_plan;
use crate::engine::are_readable;
use crate::engine::first_text;
use crate::engine::is_readable;
use crate::engine::parameters_of;
use crate::engine::text_column_fault;
use crate::engine::RecordBatch;
use crate::handle::is_handle;
use crate::handle::is_new;
use crate::handle::law_new_handle_is_unused;
use crate::metadata::ascii_bytes;
use crate::metadata::ascii_text;
use crate::metadata::is_visible;
use crate::metadata::is_visible_byte;
use crate::service::bearer_header;
use crate::service::Change;
use crate::service::ServiceView;
use crate::status::internal;
use crate::status::Code;
use crate::status::StatusView;

verus! {

/// The header by which a client sends a user name and a password.
pub open spec fn basic_header(user: Seq<char>, password: Seq<char>) -> Seq<u8> {
    ascii_bytes("Basic "@ + base64_no_pad(encode_utf8(user + seq![':'] + password)))
}

pub proof fn lemma_base64_is_visible(bytes: Seq<u8>)
    ensures
        forall|i: int|
            0 <= i < base64_no_pad(bytes).len() ==> '+' <= #[trigger] base64_no_pad(bytes)[i]
                <= 'z',
    decreases bytes.len(),
{
    let text = base64_no_pad(bytes);
    if bytes.len() >= 3 {
        lemma_base64_is_visible(bytes.skip(3));
        assert forall|i: int| 0 <= i < text.len() implies '+' <= #[trigger] text[i] <= 'z' by {
            if i >= 4 {
                assert(text[i] == base64_no_pad(bytes.skip(3))[i - 4]);
            }
        }
    }
}

pub proof fn lemma_visible_text(text: Seq<char>)
    requires
        forall|i: int| 0 <= i < text.len() ==> ' ' <= #[trigger] text[i] <= 'z',
    ensures
        is_visible(ascii_bytes(text)),
        ascii_text(ascii_bytes(text)) == text,
{
    assert(ascii_text(ascii_bytes(text)) =~= text);
}

proof fn lemma_visible_bytes(bytes: Seq<u8>)
    requires
        is_visible(bytes),
    ensures
        ascii_bytes(ascii_text(bytes)) == bytes,
{
    assert forall|i: int| 0 <= i < bytes.len() implies ascii_bytes(ascii_text(bytes))[i]
        == bytes[i] by {
        assert(is_visible_byte(bytes[i]));
    }
    assert(ascii_bytes(ascii_text(bytes)) =~= bytes);
}

/// A client that sends the user name and the password that the server is set up with, as Basic
/// authorization has it, gets a session.
pub proof fn law_right_credentials_are_accepted(user: Seq<char>, password: Seq<char>)
    requires
        !user.contains(':'),
        !password.contains(':'),
    ensures
        handshake_verdict(Some(basic_header(user, password)), Some(user), Some(password)) is Ok,
{
    let pair = user + seq![':'] + password;
    let credentials = base64_no_pad(encode_utf8(pair));
    let text = "Basic "@ + credentials;
    reveal_strlit("Basic ");
    lemma_base64_is_visible(encode_utf8(pair));
    assert forall|i: int| 0 <= i < text.len() implies ' ' <= #[trigger] text[i] <= 'z' by {
        if i >= 6 {
            assert(text[i] == credentials[i - 6]);
        }
    }
    lemma_visible_text(text);
    assert(text.skip("Basic "@.len() as int) =~= credentials);
    law_base64_round_trip(encode_utf8(pair));
    encode_utf8_valid_utf8(pair);
    encode_utf8_decode_utf8(pair);
    assert(pair[user.len() as int] == ':');
    assert forall|j: int| 0 <= j < pair.len() && j != user.len() implies #[trigger] pair[j]
        != ':' by {
        if j < user.len() {
            assert(user.contains(user[j]));
        } else {
            assert(pair[j] == password[j - user.len() - 1]);
            assert(password.contains(password[j - user.len() - 1]));
        }
    }
    assert(has_one_colon(pair));
}

/// A client gets a session only by the header that [`law_right_credentials_are_accepted`]
/// speaks of, and only from a server that is set up with a user name and a password, neither of
/// which holds a colon.
pub proof fn law_only_right_credentials_are_accepted(
    authorization: Option<Seq<u8>>,
    user: Option<Seq<char>>,
    password: Option<Seq<char>>,
)
    requires
        handshake_verdict(authorization, user, password) is Ok,
    ensures
        user is Some,
        password is Some,
        authorization == Some(basic_header(user->0, password->0)),
        !user->0.contains(':'),
        !password->0.contains(':'),
{
    let value = authorization->0;
    let text = ascii_text(value);
    let credentials = text.skip("Basic "@.len() as int);
    let bytes = base64_value(credentials)->0;
    let pair = user->0 + seq![':'] + password->0;
    assert(text =~= "Basic "@ + credentials);
    decode_utf8_encode_utf8(bytes);
    lemma_visible_bytes(value);
    assert(has_one_colon(pair));
    assert(pair[user->0.len() as int] == ':');
    assert forall|i: int| 0 <= i < user->0.len() implies user->0[i] != ':' by {
        assert(pair[i] == user->0[i]);
    }
    assert forall|i: int| 0 <= i < password->0.len() implies password->0[i] != ':' by {
        assert(pair[user->0.len() + 1 + i] == password->0[i]);
    }
}

/// Credentials with base64 padding are refused, whatever they are.
pub proof fn law_padded_credentials_are_refused(
    value: Seq<u8>,
    credentials: Seq<char>,
    user: Seq<char>,
    password: Seq<char>,
)
    requires
        is_visible(value),
        ascii_text(value) == "Basic "@ + credentials,
        credentials.contains('='),
    ensures
        handshake_verdict(Some(value), Some(user), Some(password)) matches Err(status)
            && status.code == Code::InvalidArgument,
{
    assert(("Basic "@ + credentials).skip("Basic "@.len() as int) =~= credentials);
    law_padding_is_no_base64(credentials);
}

/// The header with a token names that token.
proof fn lemma_bearer_token(token: Seq<char>)
    requires
        is_handle(token),
    ensures
        bearer_token(Some(bearer_header(token))) == Ok::<_, StatusView>(token),
{
    let text = "Bearer "@ + token;
    reveal_strlit("Bearer ");
    assert forall|i: int| 0 <= i < text.len() implies ' ' <= #[trigger] text[i] <= 'z' by {
        if i >= 7 {
            assert(text[i] == token[i - 7]);
        }
    }
    lemma_visible_text(text);
    assert(text.skip("Bearer "@.len() as int) =~= token);
}

/// The header that a handshake answers with opens the context that was made for the session,
/// until another context takes its token. Headers that name another token, or none, are answered
/// as before.
pub proof fn law_token_opens_its_context(
    service: ServiceView,
    token: Seq<char>,
    context: Arc<SessionContext>,
    other: Option<Seq<u8>>,
)
    requires
        is_handle(token),
        bearer_token(other) != Ok::<_, StatusView>(token),
    ensures
        service.after(Change::Open(token, context)).context_of(Some(bearer_header(token))) == Ok::<
            _,
            StatusView,
        >(context),
        service.after(Change::Open(token, context)).context_of(other) == service.context_of(other),
{
    lemma_bearer_token(token);
}

/// A header with a token that was not handed out opens nothing.
pub proof fn law_unknown_token_opens_nothing(
    service: ServiceView,
    authorization: Option<Seq<u8>>,
    token: Seq<char>,
)
    requires
        bearer_token(authorization) == Ok::<_, StatusView>(token),
        !service.contexts.dom().contains(token),
    ensures
        service.context_of(authorization) == Err::<Arc<SessionContext>, _>(
            internal("Context handle not found: "@ + token),
        ),
{
}

/// A plan that is kept under a handle is found there, and nothing else changes: not the plans
/// under other handles, no result and no context.
pub proof fn law_kept_plan_is_found(
    service: ServiceView,
    handle: Seq<char>,
    plan: LogicalPlan,
    other: Seq<char>,
    authorization: Option<Seq<u8>>,
)
    requires
        other != handle,
    ensures
        service.after(Change::Plan(handle, plan)).plan_of(handle) == Ok::<_, StatusView>(plan),
        service.after(Change::Plan(handle, plan)).plan_of(other) == service.plan_of(other),
        forall|h: Seq<char>|
            #[trigger] service.after(Change::Plan(handle, plan)).result_of(h) == service.result_of(h),
        service.after(Change::Plan(handle, plan)).context_of(authorization) == service.context_of(
            authorization,
        ),
{
}

/// A result that is kept under a handle is found there, in place of an earlier one, and nothing
/// else changes: not the results under other handles, no plan and no context.
pub proof fn law_kept_result_is_found(
    service: ServiceView,
    handle: Seq<char>,
    result: Seq<RecordBatch>,
    other: Seq<char>,
    authorization: Option<Seq<u8>>,
)
    requires
        other != handle,
    ensures
        service.after(Change::Execute(handle, result)).result_of(handle) == Ok::<
            _,
            StatusView,
        >(result),
        service.after(Change::Execute(handle, result)).result_of(other) == service.result_of(other),
        forall|h: Seq<char>|
            #[trigger] service.after(Change::Execute(handle, result)).plan_of(h) == service.plan_of(h),
        service.after(Change::Execute(handle, result)).context_of(authorization) == service.context_of(
            authorization,
        ),
{
}

/// The batches that a client sends for the parameters of a statement are read to as many values,
/// each batch to the text that it begins with.
pub proof fn law_each_batch_is_one_parameter(batches: Seq<RecordBatch>)
    requires
        parameters_of(batches) is Ok,
    ensures
        parameters_of(batches)->Ok_0.len() == batches.len(),
        forall|i: int|
            0 <= i < batches.len() ==> #[trigger] parameters_of(batches)->Ok_0[i] == first_text(
                batches[i],
            ),
    decreases batches.len(),
{
    if batches.len() > 0 {
        law_each_batch_is_one_parameter(batches.drop_last());
        let values = parameters_of(batches)->Ok_0;
        let before = parameters_of(batches.drop_last())->Ok_0;
        assert forall|i: int| 0 <= i < batches.len() implies #[trigger] values[i] == first_text(
            batches[i],
        ) by {
            if i < batches.len() - 1 {
                assert(values[i] == before[i]);
            }
        }
    }
}

/// The handle that a client was given for a statement, spelt in bytes, finds the plan that was
/// last kept for it, and the session that the client names.
pub proof fn law_given_handle_finds_its_plan(
    service: ServiceView,
    handle: Seq<char>,
    plan: LogicalPlan,
    authorization: Option<Seq<u8>>,
    site: Seq<char>,
)
    ensures
        service.after(Change::Plan(handle, plan)).query_of(encode_utf8(handle), authorization, site) == (
        match service.context_of(authorization) {
            Ok(context) => Ok((context, plan)),
            Err(status) => Err(status),
        }),
        service.after(Change::Plan(handle, plan)).named_plan(encode_utf8(handle), site) == Ok::<
            _,
            StatusView,
        >(plan),
{
    encode_utf8_valid_utf8(handle);
    encode_utf8_decode_utf8(handle);
}

/// The server after a statement was closed.
pub open spec fn closed_statement(service: ServiceView, handle: Seq<char>) -> ServiceView {
    service.after(Change::Close(handle))
}

/// A statement that was closed has neither a plan nor a result; other statements have theirs,
/// and every session stays open. To close it once more changes nothing.
pub proof fn law_closed_statement_is_gone(
    service: ServiceView,
    handle: Seq<char>,
    other: Seq<char>,
    authorization: Option<Seq<u8>>,
)
    requires
        other != handle,
    ensures
        closed_statement(service, handle).plan_of(handle) == Err::<LogicalPlan, _>(
            internal("Plan handle not found: "@ + handle),
        ),
        closed_statement(service, handle).result_of(handle) == Err::<Seq<RecordBatch>, _>(
            internal("Request handle not found: "@ + handle),
        ),
        closed_statement(service, handle).plan_of(other) == service.plan_of(other),
        closed_statement(service, handle).result_of(other) == service.result_of(other),
        closed_statement(service, handle).context_of(authorization) == service.context_of(
            authorization,
        ),
        closed_statement(closed_statement(service, handle), handle) == closed_statement(
            service,
            handle,
        ),
{
    let once = closed_statement(service, handle);
    let twice = closed_statement(once, handle);
    assert(twice.statements =~= once.statements);
    assert(twice.results =~= once.results);
}

/// Opening a session adds its context and leaves every prepared statement and every result as it
/// was.
pub proof fn law_opening_a_session_leaves_statements_alone(
    service: ServiceView,
    token: Seq<char>,
    context: Arc<SessionContext>,
)
    ensures
        service.after(Change::Open(token, context)).contexts == service.contexts.insert(
            token,
            context,
        ),
        service.after(Change::Open(token, context)).statements == service.statements,
        service.after(Change::Open(token, context)).results == service.results,
        forall|h: Seq<char>|
            #[trigger] service.after(Change::Open(token, context)).plan_of(h) == service.plan_of(h),
        forall|h: Seq<char>|
            #[trigger] service.after(Change::Open(token, context)).result_of(h)
                == service.result_of(h),
{
}

/// Preparing a statement, or giving it parameters, changes the plan under its handle and nothing
/// else.
pub proof fn law_planning_changes_one_plan(
    service: ServiceView,
    handle: Seq<char>,
    plan: LogicalPlan,
)
    ensures
        service.after(Change::Plan(handle, plan)).statements == service.statements.insert(
            handle,
            plan,
        ),
        service.after(Change::Plan(handle, plan)).results == service.results,
        service.after(Change::Plan(handle, plan)).contexts == service.contexts,
{
}

/// Executing a statement changes the result under its handle and nothing else.
pub proof fn law_executing_changes_one_result(
    service: ServiceView,
    handle: Seq<char>,
    result: Seq<RecordBatch>,
)
    ensures
        service.after(Change::Execute(handle, result)).results == service.results.insert(
            handle,
            result,
        ),
        service.after(Change::Execute(handle, result)).statements == service.statements,
        service.after(Change::Execute(handle, result)).contexts == service.contexts,
{
}

/// Closing a statement takes away the plan and the result under its handle and nothing else.
pub proof fn law_closing_takes_one_statement_away(service: ServiceView, handle: Seq<char>)
    ensures
        service.after(Change::Close(handle)).statements == service.statements.remove(handle),
        service.after(Change::Close(handle)).results == service.results.remove(handle),
        service.after(Change::Close(handle)).contexts == service.contexts,
{
}

/// What is kept apart is changed apart: a context, a plan or a result is put in its place, or is
/// taken away, and everything else stays.
pub proof fn law_tables_change_apart(
    service: ServiceView,
    key: Seq<char>,
    context: Arc<SessionContext>,
    plan: LogicalPlan,
    result: Seq<RecordBatch>,
)
    ensures
        service.with_context(key, context) == (ServiceView {
            contexts: service.contexts.insert(key, context),
            statements: service.statements,
            results: service.results,
        }),
        service.with_plan(key, plan) == (ServiceView {
            contexts: service.contexts,
            statements: service.statements.insert(key, plan),
            results: service.results,
        }),
        service.with_result(key, result) == (ServiceView {
            contexts: service.contexts,
            statements: service.statements,
            results: service.results.insert(key, result),
        }),
        service.without_plan(key) == (ServiceView {
            contexts: service.contexts,
            statements: service.statements.remove(key),
            results: service.results,
        }),
        service.without_result(key) == (ServiceView {
            contexts: service.contexts,
            statements: service.statements,
            results: service.results.remove(key),
        }),
{
}

/// Preparing a statement under a new handle leaves every open statement alone: the handle names
/// no statement and no result that the server kept before, so each open statement keeps its plan
/// and its result. There is memory for fewer statements than the bound.
pub proof fn law_preparing_leaves_open_statements_alone(
    service: ServiceView,
    handle: Seq<char>,
    plan: LogicalPlan,
    open: Seq<char>,
)
    requires
        is_new(handle, service.statements.dom().union(service.results.dom())),
        service.statements.dom().union(service.results.dom()).finite(),
        service.statements.dom().union(service.results.dom()).len() < 0x1_0000_0000_0000,
        service.statements.dom().contains(open),
    ensures
        open != handle,
        !service.statements.dom().contains(handle),
        !service.results.dom().contains(handle),
        service.after(Change::Plan(handle, plan)).statements.dom().contains(open),
        service.after(Change::Plan(handle, plan)).plan_of(open) == Ok::<_, StatusView>(
            service.statements[open],
        ),
        service.after(Change::Plan(handle, plan)).result_of(open) == service.result_of(open),
        service.after(Change::Plan(handle, plan)).plan_of(handle) == Ok::<_, StatusView>(plan),
{
    law_new_handle_is_unused(handle, service.statements.dom().union(service.results.dom()));
}

/// Opening a session under a new token leaves every other session its context. There is memory
/// for fewer sessions than the bound.
pub proof fn law_opening_leaves_open_sessions_alone(
    service: ServiceView,
    token: Seq<char>,
    context: Arc<SessionContext>,
    open: Seq<char>,
)
    requires
        is_new(token, service.contexts.dom()),
        service.contexts.dom().finite(),
        service.contexts.dom().len() < 0x1_0000_0000_0000,
        service.contexts.dom().contains(open),
    ensures
        open != token,
        !service.contexts.dom().contains(token),
        service.after(Change::Open(token, context)).contexts.dom().contains(open),
        service.after(Change::Open(token, context)).contexts[open] == service.contexts[open],
        service.after(Change::Open(token, context)).contexts[token] == context,
{
    law_new_handle_is_unused(token, service.contexts.dom());
}

/// A new server keeps nothing.
pub proof fn law_new_server_keeps_nothing(key: Seq<char>)
    ensures
        !ServiceView::empty().contexts.dom().contains(key),
        !ServiceView::empty().statements.dom().contains(key),
        !ServiceView::empty().results.dom().contains(key),
{
}

/// What is kept under a handle is found by it, and where nothing is, the client is told which
/// handle it asked for.
pub proof fn law_handles_find_what_is_kept(service: ServiceView, handle: Seq<char>)
    ensures
        service.statements.dom().contains(handle) ==> service.plan_of(handle) == Ok::<
            _,
            StatusView,
        >(service.statements[handle]),
        !service.statements.dom().contains(handle) ==> service.plan_of(handle) == Err::<
            LogicalPlan,
            _,
        >(StatusView { code: Code::Internal, message: "Plan handle not found: "@ + handle }),
        service.results.dom().contains(handle) ==> service.result_of(handle) == Ok::<
            _,
            StatusView,
        >(service.results[handle]),
        !service.results.dom().contains(handle) ==> service.result_of(handle) == Err::<
            Seq<RecordBatch>,
            _,
        >(StatusView { code: Code::Internal, message: "Request handle not found: "@ + handle }),
{
}

/// The server after some requests.
pub open spec fn after_all(service: ServiceView, changes: Seq<Change>) -> ServiceView
    decreases changes.len(),
{
    if changes.len() == 0 {
        service
    } else {
        after_all(service, changes.drop_last()).after(changes.last())
    }
}

/// Whether requests plan and execute only the statement under a handle.
pub open spec fn are_on_statement(changes: Seq<Change>, handle: Seq<char>) -> bool {
    forall|i: int|
        0 <= i < changes.len() ==> match #[trigger] changes[i] {
            Change::Plan(h, _) => h == handle,
            Change::Execute(h, _) => h == handle,
            _ => false,
        }
}

proof fn lemma_only_statement_changes(
    service: ServiceView,
    changes: Seq<Change>,
    handle: Seq<char>,
)
    requires
        are_on_statement(changes, handle),
    ensures
        closed_statement(after_all(service, changes), handle) == closed_statement(service, handle),
    decreases changes.len(),
{
    if changes.len() > 0 {
        let before = changes.drop_last();
        assert forall|i: int| 0 <= i < before.len() implies #[trigger] before[i] == changes[i] by {}
        lemma_only_statement_changes(service, before, handle);
        assert(changes.last() == changes[changes.len() - 1]);
        let ended = closed_statement(after_all(service, changes), handle);
        let earlier = closed_statement(after_all(service, before), handle);
        assert(ended.statements =~= earlier.statements);
        assert(ended.results =~= earlier.results);
    }
}

/// However often a statement was given parameters, executed and fetched after it was prepared:
/// once it is closed, the server is as it was before, if nothing had been kept under its handle.
pub proof fn law_close_undoes_prepare(
    service: ServiceView,
    handle: Seq<char>,
    plan: LogicalPlan,
    changes: Seq<Change>,
)
    requires
        !service.statements.dom().contains(handle),
        !service.results.dom().contains(handle),
        are_on_statement(changes, handle),
    ensures
        closed_statement(after_all(service.after(Change::Plan(handle, plan)), changes), handle) == service,
{
    lemma_only_statement_changes(service.after(Change::Plan(handle, plan)), changes, handle);
    let closed = closed_statement(service.after(Change::Plan(handle, plan)), handle);
    assert(closed.statements =~= service.statements);
    assert(closed.results =~= service.results);
}

/// Whether there are results only for statements that are open.
pub open spec fn has_results_of_open_statements(service: ServiceView) -> bool {
    forall|handle: Seq<char>| #[trigger]
        service.results.dom().contains(handle) ==> service.statements.dom().contains(handle)
}

/// Whether every statement that was executed was still open when its result was kept.
pub open spec fn executes_open_statements(service: ServiceView, changes: Seq<Change>) -> bool {
    forall|i: int|
        0 <= i < changes.len() ==> (#[trigger] changes[i] matches Change::Execute(handle, _)
            ==> after_all(service, changes.take(i)).statements.dom().contains(handle))
}

/// There are results only for statements that are open, whatever is requested of a new server:
/// every request keeps it so. Left out are requests that close a statement while it is being
/// executed.
pub proof fn law_results_are_of_open_statements(changes: Seq<Change>)
    requires
        executes_open_statements(ServiceView::empty(), changes),
    ensures
        has_results_of_open_statements(after_all(ServiceView::empty(), changes)),
    decreases changes.len(),
{
    if changes.len() > 0 {
        let before = changes.drop_last();
        let n = changes.len() - 1;
        assert(changes.take(n) =~= before);
        assert forall|i: int| 0 <= i < before.len() implies (#[trigger] before[i] matches Change::Execute(
            handle,
            _,
        ) ==> after_all(ServiceView::empty(), before.take(i)).statements.dom().contains(
            handle,
        )) by {
            assert(before[i] == changes[i]);
            assert(before.take(i) =~= changes.take(i));
        }
        law_results_are_of_open_statements(before);
        assert(changes.last() == changes[n]);
    }
}

/// Whether none of some requests opens a session with a token.
pub open spec fn leaves_token(changes: Seq<Change>, token: Seq<char>) -> bool {
    forall|i: int|
        0 <= i < changes.len() ==> (#[trigger] changes[i] matches Change::Open(t, _) ==> t != token)
}

/// A session keeps its context: no request takes it away, and none puts another in its place but
/// one that opens a session with the same token. So a header that opens a context goes on to open
/// the same one.
pub proof fn law_session_keeps_its_context(
    service: ServiceView,
    authorization: Option<Seq<u8>>,
    changes: Seq<Change>,
)
    requires
        service.context_of(authorization) is Ok,
        leaves_token(changes, bearer_token(authorization)->Ok_0),
    ensures
        after_all(service, changes).context_of(authorization) == service.context_of(authorization),
    decreases changes.len(),
{
    if changes.len() > 0 {
        let before = changes.drop_last();
        let token = bearer_token(authorization)->Ok_0;
        assert forall|i: int| 0 <= i < before.len() implies (#[trigger] before[i] matches Change::Open(
            t,
            _,
        ) ==> t != token) by {
            assert(before[i] == changes[i]);
        }
        law_session_keeps_its_context(service, authorization, before);
        assert(changes.last() == changes[changes.len() - 1]);
    }
}

/// Whether two batches begin with the same text.
pub open spec fn begin_alike(a: RecordBatch, b: RecordBatch) -> bool {
    &&& is_readable(a) && text_column_fault(a) is None
    &&& is_readable(b) && text_column_fault(b) is None
    &&& first_text(a) == first_text(b)
}

proof fn lemma_alike_parameters(a: Seq<RecordBatch>, b: Seq<RecordBatch>)
    requires
        a.len() == b.len(),
        forall|i: int| 0 <= i < a.len() ==> begin_alike(#[trigger] a[i], b[i]),
    ensures
        parameters_of(a) is Ok,
        parameters_of(a) == parameters_of(b),
    decreases a.len(),
{
    if a.len() > 0 {
        let (c, d) = (a.drop_last(), b.drop_last());
        assert forall|i: int| 0 <= i < c.len() implies begin_alike(#[trigger] c[i], d[i]) by {
            assert(begin_alike(a[i], b[i]));
        }
        lemma_alike_parameters(c, d);
        assert(begin_alike(a[a.len() - 1], b[b.len() - 1]));
    }
}

/// What parameters do to a statement depends on nothing but the texts that the batches begin
/// with, in their order: not on further rows and columns, and on no session. Batches that begin
/// alike are taken or not taken alike, are answered alike, and leave the same behind.
pub proof fn law_put_depends_on_first_texts(
    service: ServiceView,
    handle: Seq<u8>,
    a: Seq<RecordBatch>,
    b: Seq<RecordBatch>,
    site: Seq<char>,
)
    requires
        a.len() == b.len(),
        forall|i: int| 0 <= i < a.len() ==> begin_alike(#[trigger] a[i], b[i]),
    ensures
        service.takes(handle, a) == service.takes(handle, b),
        service.bound(handle, a, site) == service.bound(handle, b, site),
        service.after_put(handle, a, site) == service.after_put(handle, b, site),
{
    lemma_alike_parameters(a, b);
    assert forall|i: int| 0 <= i < a.len() implies is_readable(a[i]) && is_readable(b[i]) by {
        assert(begin_alike(a[i], b[i]));
    }
    assert(are_readable(a));
    assert(are_readable(b));
}

/// Parameters that are given a second time are bound into the plan that was left by the first
/// time, not into the plan that the statement was prepared with.
pub proof fn law_second_put_binds_into_the_first(
    service: ServiceView,
    handle: Seq<u8>,
    first: Seq<RecordBatch>,
    second: Seq<RecordBatch>,
    site: Seq<char>,
    plan: LogicalPlan,
)
    requires
        service.named_plan(handle, site) == Ok::<_, StatusView>(plan),
        service.bound(handle, first, site) is Ok,
        service.after_put(handle, first, site).bound(handle, second, site) is Ok,
    ensures
        parameters_of(first) is Ok,
        parameters_of(second) is Ok,
        bound_plan(plan, parameters_of(first)->Ok_0) is Ok,
        bound_plan(
            bound_plan(plan, parameters_of(first)->Ok_0)->Ok_0,
            parameters_of(second)->Ok_0,
        ) is Ok,
        service.after_put(handle, first, site).after_put(handle, second, site).named_plan(
            handle,
            site,
        ) == Ok::<_, StatusView>(
            bound_plan(
                bound_plan(plan, parameters_of(first)->Ok_0)->Ok_0,
                parameters_of(second)->Ok_0,
            )->Ok_0,
        ),
{
}

} // verus!
