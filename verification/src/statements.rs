//! Prepared statements: how they are made, given parameters, executed and closed, and how their
//! results are fetched.

use datafusion::logical_expr::LogicalPlan;
use datafusion::prelude::SessionContext;
use std::sync::Arc;
use vstd::prelude::*;
use vstd::string::StrSliceExecFns;
use vstd::utf8::decode_utf8;
use vstd::utf8::encode_utf8;
use vstd::utf8::valid_utf8;

use crate::auth::header_view;
use crate::binding::bind;
use crate::binding::bindable;
use crate::binding::bound_plan;
use crate::binding::is_bindable;
use crate::engine::are_readable;
use crate::engine::copy_plan;
use crate::engine::make_text_plan;
use crate::engine::make_text_schema_message;
use crate::engine::parameters_of;
use crate::engine::parameters_readable;
use crate::engine::read_parameters;
use crate::engine::text_plan;
use crate::engine::text_schema_message;
use crate::engine::texts_view;
use crate::engine::RecordBatch;
use crate::handle::is_handle;
use crate::handle::is_new;
use crate::metadata::MetadataValue;
use crate::service::Change;
use crate::service::FlightSqlServiceImpl;
use crate::service::ServiceView;
use crate::status::internal;
use crate::status::located;
use crate::status::outcome;
use crate::status::unimplemented;
use crate::status::Status;
use crate::status::StatusView;
use crate::text::join;
use crate::text::read_utf8;
use crate::text::same_text;
use crate::text::utf8_fault;
use crate::wire::fetch_results_url;
use crate::wire::read_handle;
use crate::wire::text_message;
use crate::wire::ticket_bytes;
use crate::wire::unpack_fault;
use crate::wire::Any;
use crate::wire::FetchResults;

verus! {

/// A result that is sent to a client: nothing but an empty schema where it has no batches, and
/// otherwise the schema of one of them, then all of them.
pub enum ResultStream {
    Empty,
    Batches { schema_of: RecordBatch, batches: Vec<RecordBatch> },
}

/// Whether a stream sends a result.
pub open spec fn streams(stream: ResultStream, result: Seq<RecordBatch>) -> bool {
    match stream {
        ResultStream::Empty => result.len() == 0,
        ResultStream::Batches { schema_of, batches } => result.len() > 0 && batches@ == result
            && schema_of == result[0],
    }
}

/// What a client that fetches a result is answered: the result that is sent or an error.
pub open spec fn is_answer(
    r: Result<ResultStream, Status>,
    answer: Result<Seq<RecordBatch>, StatusView>,
) -> bool {
    match answer {
        Ok(result) => r matches Ok(stream) && streams(stream, result),
        Err(refusal) => r matches Err(status) && status@ == refusal,
    }
}

impl ServiceView {
    /// What the message in a ticket is answered.
    pub open spec fn fetched(self, type_url: Seq<char>, value: Seq<u8>) -> Result<
        Seq<RecordBatch>,
        StatusView,
    > {
        if type_url != fetch_results_url() {
            Err(unimplemented("do_get: The defined request is invalid: "@ + type_url))
        } else {
            match read_handle(Seq::empty(), value) {
                Err(fault) => Err(internal(unpack_fault(fault))),
                Ok(handle) => self.result_of(handle),
            }
        }
    }
}

impl FlightSqlServiceImpl {
    /// The result under a handle, as it is sent to a client.
    pub fn open_result(&self, handle: &str) -> (r: Result<ResultStream, Status>)
        ensures
            is_answer(r, self@.result_of(handle@)),
    {
        let batches = match self.get_result(handle) {
            Err(status) => {
                return Err(status);
            },
            Ok(batches) => batches,
        };
        if batches.len() == 0 {
            Ok(ResultStream::Empty)
        } else {
            Ok(ResultStream::Batches { schema_of: batches[0].clone(), batches })
        }
    }

    /// Fetches the result that the message in a ticket asks for. The message that
    /// [`FetchResults::as_any`] makes of a handle fetches the result under that handle.
    pub fn do_get_fallback(&self, message: &Any) -> (r: Result<ResultStream, Status>)
        ensures
            is_answer(r, self@.fetched(message.type_url@, message.value@)),
            forall|handle: Seq<char>|
                message.type_url@ == fetch_results_url() && message.value@
                    == #[trigger] text_message(handle) ==> is_answer(r, self@.result_of(handle)),
    {
        if !message.is_fetch_results() {
            return Err(
                Status::unimplemented(
                    join(
                        "do_get: The defined request is invalid: ".to_owned(),
                        message.type_url.as_str(),
                    ),
                ),
            );
        }
        match message.unpack() {
            Err(fault) => Err(Status::internal(fault)),
            Ok(None) => Err(Status::internal("Expected FetchResults but got None!".to_owned())),
            Ok(Some(fetch)) => self.open_result(fetch.handle.as_str()),
        }
    }
}

/// What is needed to execute a prepared statement: its handle, its plan, and the context of the
/// session that it is executed in.
pub struct PreparedQuery {
    pub handle: String,
    pub context: Arc<SessionContext>,
    pub plan: LogicalPlan,
}

/// How a client names what it asked for: by a path or, as here, by a command.
#[derive(Debug, Clone, Copy, PartialEq, Eq, Structural)]
pub enum DescriptorType {
    Path,
    Cmd,
}

/// What a client asked for.
pub struct FlightDescriptor {
    pub descriptor_type: DescriptorType,
    pub cmd: Vec<u8>,
    pub path: Vec<String>,
}

/// A point in time, in seconds and parts of a second since the beginning of 1970.
#[derive(Debug, Clone, Copy, PartialEq, Eq, Structural)]
pub struct Timestamp {
    pub seconds: i64,
    pub nanos: i32,
}

/// Where a result is fetched: the ticket that is handed back, and the places to hand it to, if
/// they are not the place that it came from, and until when it can be fetched, if not for good.
pub struct FlightEndpoint {
    pub ticket: Vec<u8>,
    pub location: Vec<String>,
    pub expiration_time: Option<Timestamp>,
    pub app_metadata: Vec<u8>,
}

/// What a client is told of a result: its schema and how to fetch it.
pub struct FlightInfo {
    pub schema: Vec<u8>,
    pub flight_descriptor: FlightDescriptor,
    pub endpoint: Vec<FlightEndpoint>,
    pub total_records: i64,
    pub total_bytes: i64,
    pub ordered: bool,
    pub app_metadata: Vec<u8>,
}

/// Whether a client is told of the result under a handle: it is fetched here, in one piece,
/// and its size is unknown.
pub open spec fn tells_of(info: FlightInfo, handle: Seq<char>, schema: Seq<u8>) -> bool {
    &&& info.schema@ == schema
    &&& info.flight_descriptor.descriptor_type == DescriptorType::Cmd
    &&& info.flight_descriptor.cmd@.len() == 0
    &&& info.flight_descriptor.path@.len() == 0
    &&& info.endpoint@.len() == 1
    &&& info.endpoint@[0].ticket@ == ticket_bytes(handle)
    &&& info.endpoint@[0].location@.len() == 0
    &&& info.endpoint@[0].expiration_time is None
    &&& info.endpoint@[0].app_metadata@.len() == 0
    &&& info.total_records == -1
    &&& info.total_bytes == -1
    &&& !info.ordered
    &&& info.app_metadata@.len() == 0
}

/// What a client is told where the schema of a result was written to bytes, or was not.
pub open spec fn is_info(
    r: Result<FlightInfo, Status>,
    handle: Seq<char>,
    schema: Result<Vec<u8>, String>,
    site: Seq<char>,
) -> bool {
    match schema {
        Ok(bytes) => r matches Ok(info) && tells_of(info, handle, bytes@),
        Err(fault) => r matches Err(status) && status@ == located(
            "Unable to serialize schema"@,
            fault@,
            site,
        ),
    }
}

/// The places in the program that the errors of a request name.
pub struct Sites<'a> {
    pub handle: &'a str,
    pub execution: &'a str,
    pub schema: &'a str,
}

impl ServiceView {
    /// The plan that is executed for a prepared statement, and the context that it is executed
    /// in.
    pub open spec fn query_of(
        self,
        handle: Seq<u8>,
        authorization: Option<Seq<u8>>,
        site: Seq<char>,
    ) -> Result<(Arc<SessionContext>, LogicalPlan), StatusView> {
        if !valid_utf8(handle) {
            Err(located("Unable to parse uuid"@, utf8_fault(handle), site))
        } else {
            match self.context_of(authorization) {
                Err(status) => Err(status),
                Ok(context) => match self.plan_of(decode_utf8(handle)) {
                    Err(status) => Err(status),
                    Ok(plan) => Ok((context, plan)),
                },
            }
        }
    }
}

/// What a client is told of a result under a handle.
pub fn describe_result(handle: &str, schema: Result<Vec<u8>, String>, site: &str) -> (r: Result<
    FlightInfo,
    Status,
>)
    ensures
        is_info(r, handle@, schema, site@),
{
    let fetch = FetchResults { handle: handle.to_owned() };
    let ticket = fetch.as_any().encode_to_vec();
    let endpoint = FlightEndpoint {
        ticket,
        location: Vec::new(),
        expiration_time: None,
        app_metadata: Vec::new(),
    };
    let flight_descriptor = FlightDescriptor {
        descriptor_type: DescriptorType::Cmd,
        cmd: Vec::new(),
        path: Vec::new(),
    };
    match schema {
        Err(fault) => Err(Status::located("Unable to serialize schema", fault.as_str(), site)),
        Ok(schema) => {
            let mut endpoints: Vec<FlightEndpoint> = Vec::new();
            endpoints.push(endpoint);
            Ok(
                FlightInfo {
                    schema,
                    flight_descriptor,
                    endpoint: endpoints,
                    total_records: -1,
                    total_bytes: -1,
                    ordered: false,
                    app_metadata: Vec::new(),
                },
            )
        },
    }
}

impl FlightSqlServiceImpl {
    /// Finds what is needed to execute a prepared statement. Once it was executed,
    /// [`FlightSqlServiceImpl::finish_flight_info`] answers the request.
    pub fn get_flight_info_prepared_statement(
        &self,
        handle: &[u8],
        authorization: Option<&MetadataValue>,
        sites: &Sites<'_>,
    ) -> (r: Result<PreparedQuery, Status>)
        ensures
            match self@.query_of(handle@, header_view(authorization), sites.handle@) {
                Ok((context, plan)) => r matches Ok(query) && query.handle@ == decode_utf8(handle@)
                    && query.context == context && query.plan == plan,
                Err(refusal) => r matches Err(status) && status@ == refusal,
            },
    {
        let handle = match read_utf8(handle) {
            Err(fault) => {
                return Err(Status::located("Unable to parse uuid", fault.as_str(), sites.handle));
            },
            Ok(handle) => handle,
        };
        let context = match self.get_ctx(authorization) {
            Err(status) => {
                return Err(status);
            },
            Ok(context) => context,
        };
        match self.get_plan(handle.as_str()) {
            Err(status) => Err(status),
            Ok(plan) => Ok(PreparedQuery { handle, context, plan }),
        }
    }

    /// Keeps what the execution of a prepared statement returned, and tells the client of it.
    /// The result is kept even where its schema could not be written to bytes.
    pub fn keep_execution(
        &mut self,
        handle: &str,
        batches: Vec<RecordBatch>,
        schema: Result<Vec<u8>, String>,
        site: &str,
    ) -> (r: Result<FlightInfo, Status>)
        ensures
            is_info(r, handle@, schema, site@),
            final(self)@ == old(self)@.after(Change::Execute(handle@, batches@)),
    {
        self.keep_result(handle.to_owned(), batches);
        describe_result(handle, schema, site)
    }

    /// Answers the request for a prepared statement that was executed: with an error, or with
    /// how to fetch the result. `encode` writes the schema of a batch to bytes; it is asked for
    /// that of the first batch, once the result is kept, and a result without batches has the
    /// empty schema. It is handed in because arrow's encoder panics on some types of columns and
    /// on schemas beyond the size of its buffer, which a batch does not show here, and writes
    /// metadata in no fixed order.
    pub fn finish_flight_info<F: Fn(&RecordBatch) -> Result<Vec<u8>, String>>(
        &mut self,
        handle: &str,
        executed: Result<Vec<RecordBatch>, String>,
        encode: F,
        sites: &Sites<'_>,
    ) -> (r: Result<FlightInfo, Status>)
        requires
            executed matches Ok(batches) ==> batches@.len() > 0 ==> call_requires(
                encode,
                (&batches@[0],),
            ),
        ensures
            match executed {
                Err(fault) => r matches Err(status) && status@ == located(
                    "Error executing query"@,
                    fault@,
                    sites.execution@,
                ) && final(self)@ == old(self)@,
                Ok(batches) => {
                    &&& final(self)@ == old(self)@.after(Change::Execute(handle@, batches@))
                    &&& batches@.len() == 0 ==> (r matches Ok(info) && tells_of(
                        info,
                        handle@,
                        text_schema_message(Seq::empty(), false),
                    ))
                    &&& batches@.len() > 0 ==> exists|schema: Result<Vec<u8>, String>|
                        #[trigger] call_ensures(encode, (&batches@[0],), schema) && is_info(
                            r,
                            handle@,
                            schema,
                            sites.schema@,
                        )
                },
            },
    {
        let batches = match executed {
            Err(fault) => {
                return Err(
                    Status::located("Error executing query", fault.as_str(), sites.execution),
                );
            },
            Ok(batches) => batches,
        };
        if batches.len() == 0 {
            let schema = make_text_schema_message(Vec::new(), false);
            assert(texts_view(Seq::empty()) =~= Seq::empty());
            return self.keep_execution(handle, batches, schema, sites.schema);
        }
        let first = batches[0].clone();
        self.keep_result(handle.to_owned(), batches);
        describe_result(handle, encode(&first), sites.schema)
    }
}

/// What a client is told of a statement that was prepared: the handle that it is known by, and
/// the schema of its result. The schema of its parameters is not told.
pub struct ActionCreatePreparedStatementResult {
    pub prepared_statement_handle: Vec<u8>,
    pub dataset_schema: Vec<u8>,
    pub parameter_schema: Vec<u8>,
}

/// Whether a client is told of the statement under a handle.
pub open spec fn tells_of_statement(
    reply: ActionCreatePreparedStatementResult,
    handle: Seq<char>,
    schema: Seq<u8>,
) -> bool {
    &&& reply.prepared_statement_handle@ == encode_utf8(handle)
    &&& reply.dataset_schema@ == schema
    &&& reply.parameter_schema@.len() == 0
}

/// What a client is told where the schema of a plan was written to bytes, or was not.
pub open spec fn is_prepared(
    r: Result<ActionCreatePreparedStatementResult, Status>,
    handle: Seq<char>,
    schema: Result<Vec<u8>, String>,
    site: Seq<char>,
) -> bool {
    match schema {
        Ok(bytes) => r matches Ok(reply) && tells_of_statement(reply, handle, bytes@),
        Err(fault) => r matches Err(status) && status@ == located(
            "Unable to serialize schema"@,
            fault@,
            site,
        ),
    }
}

/// What a client is told of a statement under a handle.
pub fn describe_statement(handle: &str, schema: Result<Vec<u8>, String>, site: &str) -> (r: Result<
    ActionCreatePreparedStatementResult,
    Status,
>)
    ensures
        is_prepared(r, handle@, schema, site@),
{
    match schema {
        Err(fault) => Err(Status::located("Unable to serialize schema", fault.as_str(), site)),
        Ok(dataset_schema) => Ok(
            ActionCreatePreparedStatementResult {
                prepared_statement_handle: handle.as_bytes_vec(),
                dataset_schema,
                parameter_schema: Vec::new(),
            },
        ),
    }
}

/// The statement that is answered without a planner: it rolls nothing back, and yields one row
/// that says so.
pub open spec fn rollback_plan() -> LogicalPlan {
    text_plan("rollback"@, false, "ROLLBACK"@)
}

/// The bytes by which a client is told the schema of the one column of that row, which holds no
/// nulls.
pub open spec fn rollback_schema() -> Seq<u8> {
    text_schema_message(seq!["rollback"@], false)
}

/// How a request to prepare a statement goes on: the statement is to be planned in a context,
/// or the request is answered.
pub enum StatementStep {
    Plan { context: Arc<SessionContext> },
    Answer(ActionCreatePreparedStatementResult),
}

impl FlightSqlServiceImpl {
    /// Begins to prepare a statement. Where it has to be planned, and was,
    /// [`FlightSqlServiceImpl::finish_prepared_statement`] answers the request.
    pub fn do_action_create_prepared_statement(
        &mut self,
        query: &str,
        authorization: Option<&MetadataValue>,
        site: &str,
    ) -> (r: Result<StatementStep, Status>)
        ensures
            match old(self)@.context_of(header_view(authorization)) {
                Err(refusal) => r matches Err(status) && status@ == refusal && final(self)@
                    == old(self)@,
                Ok(found) => if query@ != "rollback"@ {
                    r matches Ok(StatementStep::Plan { context }) && context == found
                        && final(self)@ == old(self)@
                } else {
                    r matches Ok(StatementStep::Answer(reply)) && exists|handle: Seq<char>|
                        #[trigger] is_handle(handle) && is_new(
                        handle,
                        old(self)@.statements.dom().union(old(self)@.results.dom()),
                    ) && tells_of_statement(
                            reply,
                            handle,
                            rollback_schema(),
                        ) && final(self)@ == old(self)@.after(
                            Change::Plan(handle, rollback_plan()),
                        )
                },
            },
    {
        let context = match self.get_ctx(authorization) {
            Err(status) => {
                return Err(status);
            },
            Ok(context) => context,
        };
        if !same_text(query, "rollback") {
            return Ok(StatementStep::Plan { context });
        }
        let plan = match make_text_plan("rollback", false, "ROLLBACK") {
            Err(fault) => {
                return Err(
                    Status::internal(join("Error building plan: ".to_owned(), fault.as_str())),
                );
            },
            Ok(plan) => plan,
        };
        let mut columns: Vec<String> = Vec::new();
        columns.push("rollback".to_owned());
        proof {
            reveal_strlit("rollback");
            assert(texts_view(columns@) =~= seq!["rollback"@]);
        }
        let schema = make_text_schema_message(columns, false);
        match self.keep_statement(plan, schema, site) {
            Err(status) => Err(status),
            Ok(reply) => Ok(StatementStep::Answer(reply)),
        }
    }

    /// Keeps the plan of a statement under a new handle, and tells the client of it. The plan is
    /// kept even where its schema could not be written to bytes.
    pub fn keep_statement(
        &mut self,
        plan: LogicalPlan,
        schema: Result<Vec<u8>, String>,
        site: &str,
    ) -> (r: Result<ActionCreatePreparedStatementResult, Status>)
        ensures
            exists|handle: Seq<char>| #[trigger]
                is_handle(handle) && is_new(
                    handle,
                    old(self)@.statements.dom().union(old(self)@.results.dom()),
                ) && is_prepared(r, handle, schema, site@) && final(self)@ == old(
                    self,
                )@.after(Change::Plan(handle, plan)),
    {
        let handle = self.new_statement_handle();
        self.keep_plan(handle.clone(), plan);
        describe_statement(handle.as_str(), schema, site)
    }

    /// Answers the request to prepare a statement that was planned. `encode` writes the schema
    /// of a plan to bytes, once the plan is kept. It is handed in because arrow's encoder panics
    /// on some types of columns and on schemas beyond the size of its buffer, which a plan does
    /// not show here, and writes metadata in no fixed order.
    pub fn finish_prepared_statement<F: Fn(&LogicalPlan) -> Result<Vec<u8>, String>>(
        &mut self,
        planned: Result<LogicalPlan, String>,
        encode: F,
        site: &str,
    ) -> (r: Result<ActionCreatePreparedStatementResult, Status>)
        requires
            planned matches Ok(plan) ==> call_requires(encode, (&plan,)),
        ensures
            match planned {
                Err(fault) => r matches Err(status) && status@ == internal(
                    "Error building plan: "@ + fault@,
                ) && final(self)@ == old(self)@,
                Ok(plan) => exists|handle: Seq<char>, schema: Result<Vec<u8>, String>|
                    #[trigger] is_handle(handle) && is_new(
                        handle,
                        old(self)@.statements.dom().union(old(self)@.results.dom()),
                    ) && #[trigger] call_ensures(
                        encode,
                        (&plan,),
                        schema,
                    ) && is_prepared(r, handle, schema, site@) && final(self)@ == old(
                        self,
                    )@.after(Change::Plan(handle, plan)),
            },
    {
        match planned {
            Err(fault) => Err(
                Status::internal(join("Error building plan: ".to_owned(), fault.as_str())),
            ),
            Ok(plan) => {
                let handle = self.new_statement_handle();
                self.keep_plan(handle.clone(), copy_plan(&plan));
                describe_statement(handle.as_str(), encode(&plan), site)
            },
        }
    }
}

impl ServiceView {
    /// The plan under the handle in a request, as the request spells it.
    pub open spec fn named_plan(self, handle: Seq<u8>, site: Seq<char>) -> Result<
        LogicalPlan,
        StatusView,
    > {
        if !valid_utf8(handle) {
            Err(located("Unable to parse uuid"@, utf8_fault(handle), site))
        } else {
            self.plan_of(decode_utf8(handle))
        }
    }

    /// The plan that a prepared statement has after it was given parameters.
    pub open spec fn bound(
        self,
        handle: Seq<u8>,
        parameters: Seq<RecordBatch>,
        site: Seq<char>,
    ) -> Result<LogicalPlan, StatusView> {
        match parameters_of(parameters) {
            Err(fault) => Err(internal(fault)),
            Ok(values) => match self.named_plan(handle, site) {
                Err(status) => Err(status),
                Ok(plan) => match bound_plan(plan, values) {
                    Err(fault) => Err(internal(fault)),
                    Ok(bound) => Ok(bound),
                },
            },
        }
    }

    /// What the server keeps after a prepared statement was given parameters, or was refused
    /// them.
    pub open spec fn after_put(
        self,
        handle: Seq<u8>,
        parameters: Seq<RecordBatch>,
        site: Seq<char>,
    ) -> ServiceView {
        match self.bound(handle, parameters, site) {
            Err(_) => self,
            Ok(plan) => self.after(Change::Plan(decode_utf8(handle), plan)),
        }
    }

    /// Whether a prepared statement can be given parameters, or be refused them: where the
    /// values can be read, and its plan takes any.
    pub open spec fn takes(self, handle: Seq<u8>, parameters: Seq<RecordBatch>) -> bool {
        &&& are_readable(parameters)
        &&& parameters_of(parameters) is Ok && valid_utf8(handle)
            && self.statements.dom().contains(decode_utf8(handle)) ==> is_bindable(
            self.statements[decode_utf8(handle)],
        )
    }
}

impl FlightSqlServiceImpl {
    /// Whether a prepared statement can be given parameters, or be refused them.
    pub fn takes_parameters(&self, handle: &[u8], parameters: &Vec<RecordBatch>) -> (r: bool)
        ensures
            r == self@.takes(handle@, parameters@),
    {
        if !parameters_readable(parameters) {
            return false;
        }
        if read_parameters(parameters).is_err() {
            return true;
        }
        match read_utf8(handle) {
            Err(_) => true,
            Ok(handle) => match self.get_plan(handle.as_str()) {
                Err(_) => true,
                Ok(plan) => bindable(&plan),
            },
        }
    }

    /// Puts a plan with values for its parameters in the place of the plan of a prepared
    /// statement.
    pub fn keep_bound(
        &mut self,
        handle: &str,
        bound: Result<LogicalPlan, String>,
        site: &str,
    ) -> (r: Result<(), Status>)
        ensures
            match bound {
                Err(fault) => outcome(r) == Err::<(), StatusView>(internal(fault@)) && final(self)@
                    == old(self)@,
                Ok(plan) => if old(self)@.statements.dom().contains(handle@) {
                    r is Ok && final(self)@ == old(self)@.after(Change::Plan(handle@, plan))
                } else {
                    outcome(r) == Err::<(), StatusView>(
                        located("Handle {} not found"@, handle@, site@),
                    ) && final(self)@ == old(self)@
                },
            },
    {
        match bound {
            Err(fault) => Err(Status::internal(fault)),
            Ok(plan) => if self.overwrite_plan(handle, plan) {
                Ok(())
            } else {
                Err(Status::located("Handle {} not found", handle, site))
            },
        }
    }

    /// Gives a prepared statement the parameters that a client sends, one batch for each. The
    /// plan that it then has takes parameters again.
    pub fn do_put_prepared_statement_query(
        &mut self,
        handle: &[u8],
        parameters: &Vec<RecordBatch>,
        site: &str,
    ) -> (r: Result<(), Status>)
        requires
            old(self)@.takes(handle@, parameters@),
        ensures
            match old(self)@.bound(handle@, parameters@, site@) {
                Err(refusal) => r matches Err(status) && status@ == refusal,
                Ok(_) => r is Ok,
            },
            final(self)@ == old(self)@.after_put(handle@, parameters@, site@),
            r is Ok ==> is_bindable(final(self)@.statements[decode_utf8(handle@)]),
    {
        let values = match read_parameters(parameters) {
            Err(fault) => {
                return Err(Status::internal(fault));
            },
            Ok(values) => values,
        };
        let handle = match read_utf8(handle) {
            Err(fault) => {
                return Err(Status::located("Unable to parse uuid", fault.as_str(), site));
            },
            Ok(handle) => handle,
        };
        let plan = match self.get_plan(handle.as_str()) {
            Err(status) => {
                return Err(status);
            },
            Ok(plan) => plan,
        };
        self.keep_bound(handle.as_str(), bind(plan, values), site)
    }

    /// Gives a prepared statement the parameters that a client sends, where it can be given
    /// them or be refused them.
    pub fn try_put_prepared_statement_query(
        &mut self,
        handle: &[u8],
        parameters: &Vec<RecordBatch>,
        site: &str,
    ) -> (r: Option<Result<(), Status>>)
        ensures
            r is Some <==> old(self)@.takes(handle@, parameters@),
            r is None ==> final(self)@ == old(self)@,
            r matches Some(put) ==> match old(self)@.bound(handle@, parameters@, site@) {
                Err(refusal) => put matches Err(status) && status@ == refusal,
                Ok(_) => put is Ok,
            },
            r is Some ==> final(self)@ == old(self)@.after_put(handle@, parameters@, site@),
            r matches Some(Ok(())) ==> is_bindable(final(self)@.statements[decode_utf8(handle@)]),
    {
        if self.takes_parameters(handle, parameters) {
            Some(self.do_put_prepared_statement_query(handle, parameters, site))
        } else {
            None
        }
    }

    /// Statements that change something are executed like any other; the number of rows that
    /// the client is told is unknown.
    pub fn do_put_prepared_statement_update(&self) -> (r: Result<i64, Status>)
        ensures
            r matches Ok(rows) && rows == -1,
    {
        Ok(-1)
    }

    /// Forgets the plan and the result of a prepared statement. There may be none.
    pub fn do_action_close_prepared_statement(&mut self, handle: &[u8]) -> (r: Result<(), Status>)
        ensures
            r is Ok,
            valid_utf8(handle@) ==> final(self)@ == old(self)@.after(
                Change::Close(decode_utf8(handle@)),
            ),
            !valid_utf8(handle@) ==> final(self)@ == old(self)@,
    {
        if let Ok(handle) = read_utf8(handle) {
            let _ = self.remove_plan(handle.as_str());
            let _ = self.remove_result(handle.as_str());
        }
        Ok(())
    }
}

} // verus!
