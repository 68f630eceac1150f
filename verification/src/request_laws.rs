//! What requests are answered, in terms of what the client sends and what the server keeps.

use datafusion::logical_expr::LogicalPlan;
use datafusion::prelude::SessionContext;
use std::sync::Arc;
use vstd::prelude::*;
use vstd::utf8::decode_utf8;
use vstd::utf8::encode_utf8;
use vstd::utf8::encode_utf8_decode_utf8;
use vstd::utf8::encode_utf8_valid_utf8;
use vstd::utf8::valid_utf8;

use crate::binding::bound_plan;
use crate::binding::is_bindable;
use crate::engine::are_readable;
use crate::engine::batch_columns;
use crate::engine::batch_rows;
use crate::engine::fault_view;
use crate::engine::first_text;
use crate::engine::is_readable;
use crate::engine::lemma_fault_stays;
use crate::engine::parameter_of;
use crate::engine::parameter_view;
use crate::engine::parameters_of;
use crate::engine::parameters_view;
use crate::engine::text_column_fault;
use crate::engine::text_plan;
use crate::engine::text_schema_message;
use crate::engine::texts_view;
use crate::engine::RecordBatch;
use crate::service::batches_outcome;
use crate::service::Change;
use crate::service::ServiceView;
use crate::statements::is_answer;
use crate::statements::is_info;
use crate::statements::is_prepared;
use crate::statements::rollback_plan;
use crate::statements::rollback_schema;
use crate::statements::streams;
use crate::statements::tells_of;
use crate::statements::tells_of_statement;
use crate::statements::ActionCreatePreparedStatementResult;
use crate::statements::DescriptorType;
use crate::statements::FlightInfo;
use crate::statements::ResultStream;
use crate::status::Code;
use crate::status::Status;
use crate::status::StatusView;
use crate::text::utf8_fault;
use crate::wire::any_message;
use crate::wire::law_ticket_wraps_its_handle;
use crate::wire::parse_error_debug;
use crate::wire::read_handle;
use crate::wire::text_message;

verus! {

/// A client is told the handle of a statement that was prepared, and the schema that was written;
/// the handle that it is told names the plan that was prepared, for as long as no other plan takes
/// its place.
pub proof fn law_prepared_reply_names_its_plan(
    service: ServiceView,
    r: Result<ActionCreatePreparedStatementResult, Status>,
    handle: Seq<char>,
    plan: LogicalPlan,
    schema: Vec<u8>,
    site: Seq<char>,
)
    requires
        is_prepared(r, handle, Ok(schema), site),
    ensures
        r is Ok,
        r->Ok_0.prepared_statement_handle@ == encode_utf8(handle),
        r->Ok_0.dataset_schema@ == schema@,
        r->Ok_0.parameter_schema@.len() == 0,
        service.after(Change::Plan(handle, plan)).named_plan(
            r->Ok_0.prepared_statement_handle@,
            site,
        ) == Ok::<_, StatusView>(plan),
{
    encode_utf8_valid_utf8(handle);
    encode_utf8_decode_utf8(handle);
}

/// Where the schema of a plan or of a result was not written, the client is told why and where.
pub proof fn law_unwritten_schema_is_told(
    prepared: Result<ActionCreatePreparedStatementResult, Status>,
    executed: Result<FlightInfo, Status>,
    handle: Seq<char>,
    fault: String,
    site: Seq<char>,
)
    ensures
        is_prepared(prepared, handle, Err(fault), site) ==> (prepared matches Err(status)
            && status.code == Code::Internal && status.message@ == "Unable to serialize schema"@
            + ": "@ + fault@ + " at "@ + site),
        is_info(executed, handle, Err(fault), site) ==> (executed matches Err(status)
            && status.code == Code::Internal && status.message@ == "Unable to serialize schema"@
            + ": "@ + fault@ + " at "@ + site),
{
}

/// What a client is told of a result, with batches or without, names the handle of the result and
/// the schema; what it is told of a statement names the handle of the statement and the schema.
pub proof fn law_replies_name_handle_and_schema(
    info: FlightInfo,
    reply: ActionCreatePreparedStatementResult,
    handle: Seq<char>,
    schema: Seq<u8>,
)
    ensures
        tells_of(info, handle, schema) ==> {
            &&& info.schema@ == schema
            &&& info.flight_descriptor.descriptor_type == DescriptorType::Cmd
            &&& info.flight_descriptor.cmd@.len() == 0
            &&& info.flight_descriptor.path@.len() == 0
            &&& info.endpoint@.len() == 1
            &&& info.endpoint@[0].ticket@ == any_message(
                "type.googleapis.com/datafusion.example.com.sql.FetchResults"@,
                text_message(handle),
            )
            &&& info.endpoint@[0].location@.len() == 0
            &&& info.endpoint@[0].expiration_time is None
            &&& info.endpoint@[0].app_metadata@.len() == 0
            &&& info.total_records == -1
            &&& info.total_bytes == -1
            &&& !info.ordered
            &&& info.app_metadata@.len() == 0
        },
        tells_of_statement(reply, handle, schema) ==> {
            &&& reply.prepared_statement_handle@ == encode_utf8(handle)
            &&& reply.dataset_schema@ == schema
            &&& reply.parameter_schema@.len() == 0
        },
{
}

/// A client is told of a result by its schema and by one ticket, that is handed back here and
/// does not run out. How much there is it is not told.
pub proof fn law_executed_result_is_told_of(
    r: Result<FlightInfo, Status>,
    handle: Seq<char>,
    schema: Vec<u8>,
    site: Seq<char>,
)
    requires
        is_info(r, handle, Ok(schema), site),
    ensures
        r is Ok,
        r->Ok_0.schema@ == schema@,
        r->Ok_0.flight_descriptor.descriptor_type == DescriptorType::Cmd,
        r->Ok_0.flight_descriptor.cmd@.len() == 0,
        r->Ok_0.flight_descriptor.path@.len() == 0,
        r->Ok_0.endpoint@.len() == 1,
        r->Ok_0.endpoint@[0].ticket@ == any_message(
            "type.googleapis.com/datafusion.example.com.sql.FetchResults"@,
            text_message(handle),
        ),
        r->Ok_0.endpoint@[0].location@.len() == 0,
        r->Ok_0.endpoint@[0].expiration_time is None,
        r->Ok_0.endpoint@[0].app_metadata@.len() == 0,
        r->Ok_0.total_records == -1,
        r->Ok_0.total_bytes == -1,
        !r->Ok_0.ordered,
        r->Ok_0.app_metadata@.len() == 0,
{
}

/// The ticket that a client is told fetches what the execution returned. Whoever unwraps it finds
/// a message that asks for a result, with the handle that the result is kept under; an answer to
/// that message sends the batches of the execution, all of them and in their order.
pub proof fn law_ticket_fetches_what_was_executed(
    service: ServiceView,
    told: Result<FlightInfo, Status>,
    handle: Seq<char>,
    batches: Seq<RecordBatch>,
    schema: Vec<u8>,
    site: Seq<char>,
    type_url: Seq<char>,
    value: Seq<u8>,
    answer: Result<ResultStream, Status>,
)
    requires
        is_info(told, handle, Ok(schema), site),
        told->Ok_0.endpoint@[0].ticket@ == any_message(type_url, value),
        is_answer(answer, service.after(Change::Execute(handle, batches)).result_of(handle)),
    ensures
        type_url == "type.googleapis.com/datafusion.example.com.sql.FetchResults"@,
        value == text_message(handle),
        service.after(Change::Execute(handle, batches)).results[handle] == batches,
        batches.len() == 0 ==> (answer matches Ok(ResultStream::Empty)),
        batches.len() > 0 ==> (answer matches Ok(ResultStream::Batches { schema_of, batches: sent })
            && sent@ == batches && schema_of == batches[0]),
{
    law_ticket_wraps_its_handle(handle, type_url, value);
}

/// A stream sends as many batches as the result has, each in its place, behind the schema of the
/// first. A result without batches is sent as an empty schema.
pub proof fn law_stream_sends_the_batches_in_order(
    stream: ResultStream,
    result: Seq<RecordBatch>,
    i: int,
)
    requires
        streams(stream, result),
        0 <= i < result.len(),
    ensures
        stream is Batches,
        stream->batches@.len() == result.len(),
        stream->batches@[i] == result[i],
        stream->schema_of == result[0],
{
}

/// A result without batches is sent as an empty schema, and only such a result is.
pub proof fn law_empty_stream_is_of_an_empty_result(stream: ResultStream, result: Seq<RecordBatch>)
    requires
        streams(stream, result),
    ensures
        stream is Empty <==> result.len() == 0,
{
}

/// An answer to a fetch sends the result that was found, or says why none was.
pub proof fn law_fetch_sends_what_was_found(
    r: Result<ResultStream, Status>,
    result: Seq<RecordBatch>,
    refusal: StatusView,
)
    ensures
        is_answer(r, Ok(result)) ==> (r matches Ok(stream) && streams(stream, result)),
        is_answer(r, Err(refusal)) ==> (r matches Err(status) && status.code == refusal.code
            && status.message@ == refusal.message),
{
}

/// What the message in a ticket is answered: messages of other types are not known, a message
/// that can not be read is told so, and otherwise its handle finds the result that is kept.
pub proof fn law_tickets_find_what_is_kept(
    service: ServiceView,
    type_url: Seq<char>,
    value: Seq<u8>,
    handle: Seq<char>,
    fault: Seq<char>,
)
    ensures
        type_url != "type.googleapis.com/datafusion.example.com.sql.FetchResults"@
            ==> service.fetched(type_url, value) == Err::<Seq<RecordBatch>, _>(
            StatusView {
                code: Code::Unimplemented,
                message: "do_get: The defined request is invalid: "@ + type_url,
            },
        ),
        type_url == "type.googleapis.com/datafusion.example.com.sql.FetchResults"@ && read_handle(
            Seq::empty(),
            value,
        ) == Err::<Seq<char>, _>(fault) ==> service.fetched(type_url, value) == Err::<
            Seq<RecordBatch>,
            _,
        >(
            StatusView {
                code: Code::Internal,
                message: parse_error_debug("Unable to decode Any value: "@ + fault),
            },
        ),
        type_url == "type.googleapis.com/datafusion.example.com.sql.FetchResults"@ && read_handle(
            Seq::empty(),
            value,
        ) == Ok::<_, Seq<char>>(handle) && service.results.dom().contains(handle)
            ==> service.fetched(type_url, value) == Ok::<_, StatusView>(service.results[handle]),
        type_url == "type.googleapis.com/datafusion.example.com.sql.FetchResults"@ && read_handle(
            Seq::empty(),
            value,
        ) == Ok::<_, Seq<char>>(handle) && !service.results.dom().contains(handle)
            ==> service.fetched(type_url, value) == Err::<Seq<RecordBatch>, _>(
            StatusView {
                code: Code::Internal,
                message: "Request handle not found: "@ + handle,
            },
        ),
{
}

/// A prepared statement is executed with the plan that is kept under its handle, in the context of
/// the session that the client names. A handle that is no text is told first, then a session that
/// is not there, then a plan that is not.
pub proof fn law_execution_takes_the_kept_plan(
    service: ServiceView,
    handle: Seq<u8>,
    authorization: Option<Seq<u8>>,
    site: Seq<char>,
    context: Arc<SessionContext>,
    refusal: StatusView,
)
    ensures
        !valid_utf8(handle) ==> service.query_of(handle, authorization, site) == Err::<
            (Arc<SessionContext>, LogicalPlan),
            _,
        >(
            StatusView {
                code: Code::Internal,
                message: "Unable to parse uuid"@ + ": "@ + utf8_fault(handle) + " at "@ + site,
            },
        ),
        valid_utf8(handle) && service.context_of(authorization) == Err::<
            Arc<SessionContext>,
            _,
        >(refusal) ==> service.query_of(handle, authorization, site) == Err::<
            (Arc<SessionContext>, LogicalPlan),
            _,
        >(refusal),
        valid_utf8(handle) && service.context_of(authorization) == Ok::<_, StatusView>(context)
            && !service.statements.dom().contains(decode_utf8(handle)) ==> service.query_of(
            handle,
            authorization,
            site,
        ) == Err::<(Arc<SessionContext>, LogicalPlan), _>(
            StatusView {
                code: Code::Internal,
                message: "Plan handle not found: "@ + decode_utf8(handle),
            },
        ),
        valid_utf8(handle) && service.context_of(authorization) == Ok::<_, StatusView>(context)
            && service.statements.dom().contains(decode_utf8(handle)) ==> service.query_of(
            handle,
            authorization,
            site,
        ) == Ok::<_, StatusView>((context, service.statements[decode_utf8(handle)])),
{
}

proof fn lemma_texts_are_parameters(batches: Seq<RecordBatch>)
    requires
        forall|i: int|
            0 <= i < batches.len() ==> batch_columns(#[trigger] batches[i]) > 0 && batch_rows(
                batches[i],
            ) > 0 && text_column_fault(batches[i]) is None,
    ensures
        parameters_of(batches) == Ok::<_, Seq<char>>(
            Seq::new(batches.len(), |i: int| first_text(batches[i])),
        ),
    decreases batches.len(),
{
    let texts = Seq::new(batches.len(), |i: int| first_text(batches[i]));
    if batches.len() == 0 {
        assert(texts =~= Seq::empty());
    } else {
        let before = batches.drop_last();
        assert forall|i: int| 0 <= i < before.len() implies batch_columns(#[trigger] before[i]) > 0
            && batch_rows(before[i]) > 0 && text_column_fault(before[i]) is None by {
            assert(before[i] == batches[i]);
        }
        lemma_texts_are_parameters(before);
        let earlier = Seq::new(before.len(), |i: int| first_text(before[i]));
        assert(batches.last() == batches[batches.len() - 1]);
        assert(texts =~= earlier.push(first_text(batches.last())));
    }
}

/// Whatever the number of batches: where every batch begins with a text, and the handle names a
/// plan, those texts in their order are bound into that plan. The plan that comes of it takes the
/// place of the plan under the handle, and nothing else changes; where none comes of it, the
/// client is told why and nothing changes.
pub proof fn law_put_binds_the_first_texts(
    service: ServiceView,
    handle: Seq<u8>,
    batches: Seq<RecordBatch>,
    site: Seq<char>,
    bound: LogicalPlan,
    fault: Seq<char>,
)
    requires
        forall|i: int|
            0 <= i < batches.len() ==> batch_columns(#[trigger] batches[i]) > 0 && batch_rows(
                batches[i],
            ) > 0 && text_column_fault(batches[i]) is None,
        valid_utf8(handle),
        service.statements.dom().contains(decode_utf8(handle)),
    ensures
        bound_plan(
            service.statements[decode_utf8(handle)],
            Seq::new(batches.len(), |i: int| first_text(batches[i])),
        ) == Ok::<_, Seq<char>>(bound) ==> {
            &&& service.bound(handle, batches, site) == Ok::<_, StatusView>(bound)
            &&& service.after_put(handle, batches, site).statements == service.statements.insert(
                decode_utf8(handle),
                bound,
            )
            &&& service.after_put(handle, batches, site).results == service.results
            &&& service.after_put(handle, batches, site).contexts == service.contexts
        },
        bound_plan(
            service.statements[decode_utf8(handle)],
            Seq::new(batches.len(), |i: int| first_text(batches[i])),
        ) == Err::<LogicalPlan, _>(fault) ==> {
            &&& service.bound(handle, batches, site) == Err::<LogicalPlan, _>(
                StatusView { code: Code::Internal, message: fault },
            )
            &&& service.after_put(handle, batches, site) == service
        },
{
    lemma_texts_are_parameters(batches);
}

/// Where every batch begins with a text, a handle that is no text, or that names no plan, is told,
/// and nothing changes.
pub proof fn law_put_needs_a_statement(
    service: ServiceView,
    handle: Seq<u8>,
    batches: Seq<RecordBatch>,
    site: Seq<char>,
)
    requires
        forall|i: int|
            0 <= i < batches.len() ==> batch_columns(#[trigger] batches[i]) > 0 && batch_rows(
                batches[i],
            ) > 0 && text_column_fault(batches[i]) is None,
        valid_utf8(handle) ==> !service.statements.dom().contains(decode_utf8(handle)),
    ensures
        service.after_put(handle, batches, site) == service,
        !valid_utf8(handle) ==> service.bound(handle, batches, site) == Err::<LogicalPlan, _>(
            StatusView {
                code: Code::Internal,
                message: "Unable to parse uuid"@ + ": "@ + utf8_fault(handle) + " at "@ + site,
            },
        ),
        valid_utf8(handle) ==> service.bound(handle, batches, site) == Err::<LogicalPlan, _>(
            StatusView {
                code: Code::Internal,
                message: "Plan handle not found: "@ + decode_utf8(handle),
            },
        ),
{
    lemma_texts_are_parameters(batches);
}

/// The first batch that begins with no text is told, whatever comes behind it and whatever the
/// handle names, and nothing changes.
pub proof fn law_put_tells_the_first_fault(
    service: ServiceView,
    handle: Seq<u8>,
    batches: Seq<RecordBatch>,
    site: Seq<char>,
    k: int,
    fault: Seq<char>,
)
    requires
        0 <= k < batches.len(),
        forall|i: int|
            0 <= i < k ==> batch_columns(#[trigger] batches[i]) > 0 && batch_rows(batches[i]) > 0
                && text_column_fault(batches[i]) is None,
        text_column_fault(batches[k]) == Some(fault),
    ensures
        service.bound(handle, batches, site) == Err::<LogicalPlan, _>(
            StatusView { code: Code::Internal, message: fault },
        ),
        service.after_put(handle, batches, site) == service,
{
    let head = batches.take(k);
    assert forall|i: int| 0 <= i < head.len() implies batch_columns(#[trigger] head[i]) > 0
        && batch_rows(head[i]) > 0 && text_column_fault(head[i]) is None by {
        assert(head[i] == batches[i]);
    }
    lemma_texts_are_parameters(head);
    assert(batches.take(k + 1).drop_last() =~= head);
    lemma_fault_stays(batches, k + 1);
}

/// Parameters are taken, or refused with an answer, wherever every batch has a first column, and
/// a first row if that column holds texts, and the plan under the handle, if there is one, can be
/// given values.
pub proof fn law_readable_parameters_are_taken(
    service: ServiceView,
    handle: Seq<u8>,
    batches: Seq<RecordBatch>,
)
    requires
        forall|i: int|
            0 <= i < batches.len() ==> batch_columns(#[trigger] batches[i]) > 0 && (batch_rows(
                batches[i],
            ) > 0 || text_column_fault(batches[i]) is Some),
        valid_utf8(handle) && service.statements.dom().contains(decode_utf8(handle))
            ==> is_bindable(service.statements[decode_utf8(handle)]),
    ensures
        service.takes(handle, batches),
        are_readable(batches),
{
}

/// One batch is one parameter: the text that it begins with, or what is wrong with its column.
pub proof fn law_batch_begins_with_its_parameter(batch: RecordBatch)
    ensures
        text_column_fault(batch) is None ==> parameter_of(batch) == Ok::<_, Seq<char>>(
            first_text(batch),
        ),
        text_column_fault(batch) matches Some(fault) ==> parameter_of(batch) == Err::<
            Seq<char>,
            _,
        >(fault),
        is_readable(batch) <==> batch_columns(batch) > 0 && (batch_rows(batch) > 0
            || text_column_fault(batch) is Some),
{
}

/// Texts, batches and faults are seen whole.
pub proof fn law_values_are_seen_whole(
    texts: Vec<String>,
    text: String,
    fault: String,
    batches: Vec<RecordBatch>,
    status: Status,
    i: int,
)
    ensures
        texts_view(texts@).len() == texts@.len(),
        0 <= i < texts@.len() ==> texts_view(texts@)[i] == texts@[i]@,
        fault_view(Some(fault)) == Some(fault@),
        fault_view(None) is None,
        parameter_view(Ok(text)) == Ok::<_, Seq<char>>(text@),
        parameter_view(Err(fault)) == Err::<Seq<char>, _>(fault@),
        parameters_view(Ok(texts)) == Ok::<_, Seq<char>>(texts_view(texts@)),
        parameters_view(Err(fault)) == Err::<Seq<Seq<char>>, _>(fault@),
        batches_outcome(Ok(batches)) == Ok::<_, StatusView>(batches@),
        batches_outcome(Err(status)) == Err::<Seq<RecordBatch>, _>(status@),
{
}

/// A rollback is answered with one row, whose one column is named for it and holds no nulls, and
/// the client is told that schema.
pub proof fn law_rollback_is_one_row()
    ensures
        rollback_plan() == text_plan("rollback"@, false, "ROLLBACK"@),
        rollback_schema() == text_schema_message(seq!["rollback"@], false),
{
}

} // verus!
