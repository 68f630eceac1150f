//! What the server keeps, and what its requests do to that.

use dashmap::DashMap;
use datafusion::logical_expr::LogicalPlan;
use datafusion::prelude::SessionContext;
use std::sync::Arc;
use vstd::prelude::*;
use vstd::string::StrSliceExecFns;
use vstd::utf8::encode_utf8;
use vstd::utf8::is_ascii_chars;
use vstd::utf8::is_ascii_chars_encode_utf8;

use crate::auth::bearer_token;
use crate::auth::check_handshake;
use crate::auth::find_token;
use crate::auth::handshake_verdict;
use crate::auth::header_view;
use crate::auth::text_view;
use crate::engine::RecordBatch;
use crate::handle::is_handle;
use crate::handle::is_new;
use crate::handle::lemma_sibling_is_handle;
use crate::handle::lemma_siblings_crowd;
use crate::handle::make_sibling;
use crate::handle::new_handle;
use crate::handle::sibling;
use crate::handle::SIBLINGS;
use crate::metadata::ascii_bytes;
use crate::metadata::is_header_value;
use crate::metadata::is_visible;
use crate::metadata::MetadataValue;
use crate::status::internal;
use crate::status::invalid_argument;
use crate::status::outcome;
use crate::status::Status;
use crate::status::StatusView;
use crate::tables::contexts_of;
use crate::tables::delete_plan;
use crate::tables::delete_result;
use crate::tables::find_context;
use crate::tables::find_plan;
use crate::tables::find_result;
use crate::tables::insert_context;
use crate::tables::insert_plan;
use crate::tables::insert_result;
use crate::tables::new_contexts;
use crate::tables::new_plans;
use crate::tables::new_results;
use crate::tables::plans_of;
use crate::tables::replace_plan;
use crate::tables::results_of;
use crate::text::join;
use crate::udf::SessionFunction;

verus! {

/// The server: the contexts of its sessions, the plans of the prepared statements and their
/// results. The tables are private, as they could be changed through a shared reference.
pub struct FlightSqlServiceImpl {
    contexts: DashMap<String, Arc<SessionContext>>,
    statements: DashMap<String, LogicalPlan>,
    results: DashMap<String, Vec<RecordBatch>>,
}

/// What the server keeps.
pub struct ServiceView {
    pub contexts: Map<Seq<char>, Arc<SessionContext>>,
    pub statements: Map<Seq<char>, LogicalPlan>,
    pub results: Map<Seq<char>, Seq<RecordBatch>>,
}

impl View for FlightSqlServiceImpl {
    type V = ServiceView;

    closed spec fn view(&self) -> ServiceView {
        ServiceView {
            contexts: contexts_of(self.contexts),
            statements: plans_of(self.statements),
            results: results_of(self.results),
        }
    }
}

/// What a request does to what the server keeps. A request that is refused, or that only finds
/// something, does nothing to it.
pub enum Change {
    /// A session is opened: its token and its context.
    Open(Seq<char>, Arc<SessionContext>),
    /// A statement is prepared, or is given parameters: its handle and its plan.
    Plan(Seq<char>, LogicalPlan),
    /// A statement was executed: its handle and its result.
    Execute(Seq<char>, Seq<RecordBatch>),
    /// A statement is closed: its handle.
    Close(Seq<char>),
}

impl ServiceView {
    /// What the server keeps after a change.
    pub open spec fn after(self, change: Change) -> ServiceView {
        match change {
            Change::Open(token, context) => self.with_context(token, context),
            Change::Plan(handle, plan) => self.with_plan(handle, plan),
            Change::Execute(handle, result) => self.with_result(handle, result),
            Change::Close(handle) => self.without_plan(handle).without_result(handle),
        }
    }

    /// What a new server keeps.
    pub open spec fn empty() -> ServiceView {
        ServiceView { contexts: Map::empty(), statements: Map::empty(), results: Map::empty() }
    }

    /// After a context was kept under a token.
    pub open spec fn with_context(
        self,
        token: Seq<char>,
        context: Arc<SessionContext>,
    ) -> ServiceView {
        ServiceView { contexts: self.contexts.insert(token, context), ..self }
    }

    /// After a plan was kept under a handle.
    pub open spec fn with_plan(self, handle: Seq<char>, plan: LogicalPlan) -> ServiceView {
        ServiceView { statements: self.statements.insert(handle, plan), ..self }
    }

    /// After a result was kept under a handle.
    pub open spec fn with_result(
        self,
        handle: Seq<char>,
        batches: Seq<RecordBatch>,
    ) -> ServiceView {
        ServiceView { results: self.results.insert(handle, batches), ..self }
    }

    /// After the plan under a handle was taken out.
    pub open spec fn without_plan(self, handle: Seq<char>) -> ServiceView {
        ServiceView { statements: self.statements.remove(handle), ..self }
    }

    /// After the result under a handle was taken out.
    pub open spec fn without_result(self, handle: Seq<char>) -> ServiceView {
        ServiceView { results: self.results.remove(handle), ..self }
    }

    /// The context that the authorization header of a request names.
    pub open spec fn context_of(self, authorization: Option<Seq<u8>>) -> Result<
        Arc<SessionContext>,
        StatusView,
    > {
        match bearer_token(authorization) {
            Err(status) => Err(status),
            Ok(token) => if self.contexts.dom().contains(token) {
                Ok(self.contexts[token])
            } else {
                Err(internal("Context handle not found: "@ + token))
            },
        }
    }

    /// The plan under a handle.
    pub open spec fn plan_of(self, handle: Seq<char>) -> Result<LogicalPlan, StatusView> {
        if self.statements.dom().contains(handle) {
            Ok(self.statements[handle])
        } else {
            Err(internal("Plan handle not found: "@ + handle))
        }
    }

    /// The result under a handle.
    pub open spec fn result_of(self, handle: Seq<char>) -> Result<Seq<RecordBatch>, StatusView> {
        if self.results.dom().contains(handle) {
            Ok(self.results[handle])
        } else {
            Err(internal("Request handle not found: "@ + handle))
        }
    }
}

/// What went wrong where a context was to be made: with the configuration in the environment,
/// or with the catalogs.
pub enum ContextFault {
    Config(String),
    Catalogs(String),
}

/// What a fault of a context is answered.
pub open spec fn context_status(fault: ContextFault) -> StatusView {
    match fault {
        ContextFault::Config(error) => internal("Error building plan: "@ + error@),
        ContextFault::Catalogs(error) => internal("Error creating catalogs: "@ + error@),
    }
}

/// Whether every function of a session may be registered in a context.
pub open spec fn takes_functions<G: Fn(&SessionContext, SessionFunction)>(
    register: G,
    context: SessionContext,
) -> bool {
    forall|function: SessionFunction| #[trigger]
        call_requires(register, (&context, function))
}

/// Whether every function of a session was registered in a context.
pub open spec fn has_functions<G: Fn(&SessionContext, SessionFunction)>(
    register: G,
    context: SessionContext,
) -> bool {
    forall|function: SessionFunction| #[trigger]
        call_ensures(register, (&context, function), ())
}

/// The answer to a handshake: a message with the token, and the token again in a header, as
/// the client has to send it.
pub struct HandshakeReply {
    pub protocol_version: u64,
    pub payload: Vec<u8>,
    pub authorization: MetadataValue,
}

/// The header by which a client names its session.
pub open spec fn bearer_header(token: Seq<char>) -> Seq<u8> {
    ascii_bytes("Bearer "@ + token)
}

/// Whether a reply hands out a token.
pub open spec fn hands_out(reply: HandshakeReply, token: Seq<char>) -> bool {
    &&& reply.protocol_version == 0
    &&& reply.payload@ == encode_utf8(token)
    &&& reply.authorization@ == bearer_header(token)
}

/// Hands out a token, where a header can hold it.
pub fn handshake_reply(token: &str) -> (r: Result<HandshakeReply, Status>)
    ensures
        if is_header_value(encode_utf8("Bearer "@ + token@)) {
            r matches Ok(reply) && reply.protocol_version == 0 && reply.payload@ == encode_utf8(
                token@,
            ) && reply.authorization@ == encode_utf8("Bearer "@ + token@)
        } else {
            r matches Err(status) && status@ == invalid_argument("authorization not parsable"@)
        },
{
    let header = join("Bearer ".to_owned(), token);
    match MetadataValue::from_bytes(header.as_str().as_bytes_vec()) {
        None => Err(Status::invalid_argument("authorization not parsable".to_owned())),
        Some(authorization) => Ok(
            HandshakeReply {
                protocol_version: 0,
                payload: token.as_bytes_vec(),
                authorization,
            },
        ),
    }
}

/// Batches or an error, seen as a sequence or the error's view.
pub open spec fn batches_outcome(r: Result<Vec<RecordBatch>, Status>) -> Result<
    Seq<RecordBatch>,
    StatusView,
> {
    match r {
        Ok(batches) => Ok(batches@),
        Err(status) => Err(status@),
    }
}

/// A handle is ASCII, and a header value with it is.
proof fn lemma_handle_is_ascii(token: Seq<char>)
    requires
        is_handle(token),
    ensures
        is_ascii_chars("Bearer "@ + token),
        encode_utf8("Bearer "@ + token) == bearer_header(token),
        is_visible(bearer_header(token)),
        is_header_value(bearer_header(token)),
{
    reveal_strlit("Bearer ");
    let text = "Bearer "@ + token;
    assert forall|i: int| 0 <= i < text.len() implies ' ' <= #[trigger] text[i] <= 'z' by {
        if i >= 7 {
            assert(text[i] == token[i - 7]);
        }
    }
    is_ascii_chars_encode_utf8(text);
    assert(encode_utf8(text) =~= ascii_bytes(text));
}

impl FlightSqlServiceImpl {
    pub fn new() -> (r: FlightSqlServiceImpl)
        ensures
            r@ == ServiceView::empty(),
    {
        FlightSqlServiceImpl {
            contexts: new_contexts(),
            statements: new_plans(),
            results: new_results(),
        }
    }

    /// A token that names no context yet.
    fn new_token(&self) -> (r: String)
        ensures
            is_handle(r@),
            is_new(r@, self@.contexts.dom()),
    {
        let drawn = new_handle();
        if find_context(&self.contexts, drawn.as_str()).is_none() {
            return drawn;
        }
        let mut n: u64 = 0;
        while n < SIBLINGS
            invariant
                n <= SIBLINGS,
                is_handle(drawn@),
                forall|m: nat|
                    m < n ==> self@.contexts.dom().contains(#[trigger] sibling(drawn@, m)),
            decreases SIBLINGS - n,
        {
            let token = make_sibling(drawn.as_str(), n);
            proof {
                lemma_sibling_is_handle(drawn@, n as nat);
            }
            if find_context(&self.contexts, token.as_str()).is_none() {
                return token;
            }
            n = n + 1;
        }
        proof {
            lemma_siblings_crowd(drawn@, self@.contexts.dom());
        }
        drawn
    }

    /// Whether a plan or a result is kept under a handle.
    fn is_used(&self, handle: &str) -> (r: bool)
        ensures
            r == (self@.statements.dom().contains(handle@) || self@.results.dom().contains(
                handle@,
            )),
    {
        find_plan(&self.statements, handle).is_some() || find_result(
            &self.results,
            handle,
        ).is_some()
    }

    /// A handle that names no statement and no result yet.
    pub(crate) fn new_statement_handle(&self) -> (r: String)
        ensures
            is_handle(r@),
            is_new(r@, self@.statements.dom().union(self@.results.dom())),
    {
        let drawn = new_handle();
        if !self.is_used(drawn.as_str()) {
            return drawn;
        }
        let ghost used = self@.statements.dom().union(self@.results.dom());
        let mut n: u64 = 0;
        while n < SIBLINGS
            invariant
                n <= SIBLINGS,
                is_handle(drawn@),
                used == self@.statements.dom().union(self@.results.dom()),
                forall|m: nat| m < n ==> used.contains(#[trigger] sibling(drawn@, m)),
            decreases SIBLINGS - n,
        {
            let handle = make_sibling(drawn.as_str(), n);
            proof {
                lemma_sibling_is_handle(drawn@, n as nat);
            }
            if !self.is_used(handle.as_str()) {
                return handle;
            }
            n = n + 1;
        }
        proof {
            lemma_siblings_crowd(drawn@, used);
        }
        drawn
    }

    /// Registers the functions of a session in a context that was made for it, keeps the context
    /// and returns its token. `register` makes a function known to a context, by the function
    /// that [`SessionFunction::udf`] makes of it.
    pub fn create_ctx<G: Fn(&SessionContext, SessionFunction)>(
        &mut self,
        context: Result<Arc<SessionContext>, ContextFault>,
        register: &G,
    ) -> (r: Result<String, Status>)
        requires
            context matches Ok(made) ==> takes_functions(*register, *made),
        ensures
            match context {
                Ok(made) => r matches Ok(token) && is_handle(token@) && is_new(
                    token@,
                    old(self)@.contexts.dom(),
                ) && final(self)@ == old(self)@.after(Change::Open(token@, made)) && has_functions(
                    *register,
                    *made,
                ),
                Err(fault) => r matches Err(status) && status@ == context_status(fault)
                    && final(self)@ == old(self)@,
            },
    {
        let context = match context {
            Err(ContextFault::Config(error)) => {
                return Err(
                    Status::internal(join("Error building plan: ".to_owned(), error.as_str())),
                );
            },
            Err(ContextFault::Catalogs(error)) => {
                return Err(
                    Status::internal(join("Error creating catalogs: ".to_owned(), error.as_str())),
                );
            },
            Ok(context) => context,
        };
        let functions = SessionFunction::all();
        let mut i: usize = 0;
        while i < functions.len()
            invariant
                i <= functions@.len(),
                takes_functions(*register, *context),
                forall|j: int|
                    0 <= j < i ==> call_ensures(
                        *register,
                        (&*context, #[trigger] functions@[j]),
                        (),
                    ),
            decreases functions@.len() - i,
        {
            assert(call_requires(*register, (&*context, functions@[i as int])));
            register(&context, functions[i]);
            i = i + 1;
        }
        assert forall|function: SessionFunction| #[trigger]
            call_ensures(*register, (&*context, function), ()) by {
            assert(functions@.contains(function));
            let j = choose|j: int| 0 <= j < functions@.len() && functions@[j] == function;
            assert(call_ensures(*register, (&*context, functions@[j]), ()));
        }
        let token = self.new_token();
        insert_context(&mut self.contexts, token.clone(), context);
        Ok(token)
    }

    /// The context of the session that a request belongs to.
    pub fn get_ctx(&self, authorization: Option<&MetadataValue>) -> (r: Result<
        Arc<SessionContext>,
        Status,
    >)
        ensures
            outcome(r) == self@.context_of(header_view(authorization)),
    {
        let token = match find_token(authorization) {
            Err(status) => {
                return Err(status);
            },
            Ok(token) => token,
        };
        match find_context(&self.contexts, token.as_str()) {
            Some(context) => Ok(context),
            None => Err(
                Status::internal(join("Context handle not found: ".to_owned(), token.as_str())),
            ),
        }
    }

    /// The plan of a prepared statement.
    pub fn get_plan(&self, handle: &str) -> (r: Result<LogicalPlan, Status>)
        ensures
            outcome(r) == self@.plan_of(handle@),
    {
        match find_plan(&self.statements, handle) {
            Some(plan) => Ok(plan),
            None => Err(Status::internal(join("Plan handle not found: ".to_owned(), handle))),
        }
    }

    /// The result of a prepared statement.
    pub fn get_result(&self, handle: &str) -> (r: Result<Vec<RecordBatch>, Status>)
        ensures
            batches_outcome(r) == self@.result_of(handle@),
    {
        match find_result(&self.results, handle) {
            Some(batches) => Ok(batches),
            None => Err(Status::internal(join("Request handle not found: ".to_owned(), handle))),
        }
    }

    /// Keeps a plan under a handle.
    pub(crate) fn keep_plan(&mut self, handle: String, plan: LogicalPlan)
        ensures
            final(self)@ == old(self)@.with_plan(handle@, plan),
    {
        insert_plan(&mut self.statements, handle, plan);
    }

    /// Writes over the plan under a handle, and says whether there is one.
    pub(crate) fn overwrite_plan(&mut self, handle: &str, plan: LogicalPlan) -> (r: bool)
        ensures
            r == old(self)@.statements.dom().contains(handle@),
            r ==> final(self)@ == old(self)@.with_plan(handle@, plan),
            !r ==> final(self)@ == old(self)@,
    {
        replace_plan(&mut self.statements, handle, plan)
    }

    /// Keeps a result under a handle.
    pub(crate) fn keep_result(&mut self, handle: String, batches: Vec<RecordBatch>)
        ensures
            final(self)@ == old(self)@.with_result(handle@, batches@),
    {
        insert_result(&mut self.results, handle, batches);
    }

    /// Forgets the plan of a prepared statement, if there is one.
    pub fn remove_plan(&mut self, handle: &str) -> (r: Result<(), Status>)
        ensures
            r is Ok,
            final(self)@ == old(self)@.without_plan(handle@),
    {
        delete_plan(&mut self.statements, handle);
        Ok(())
    }

    /// Forgets the result of a prepared statement, if there is one.
    pub fn remove_result(&mut self, handle: &str) -> (r: Result<(), Status>)
        ensures
            r is Ok,
            final(self)@ == old(self)@.without_result(handle@),
    {
        delete_result(&mut self.results, handle);
        Ok(())
    }

    /// Opens a session, with the context that was made for it, for a client that sends the
    /// right credentials. The context is made after [`check_handshake`] has passed them, so
    /// that nothing is made for a client that does not.
    pub fn do_handshake<G: Fn(&SessionContext, SessionFunction)>(
        &mut self,
        authorization: Option<&MetadataValue>,
        user: Option<&str>,
        password: Option<&str>,
        context: Result<Arc<SessionContext>, ContextFault>,
        register: &G,
    ) -> (r: Result<HandshakeReply, Status>)
        requires
            context matches Ok(made) ==> takes_functions(*register, *made),
        ensures
            match handshake_verdict(
                header_view(authorization),
                text_view(user),
                text_view(password),
            ) {
                Err(refusal) => r matches Err(status) && status@ == refusal && final(self)@
                    == old(self)@,
                Ok(()) => match context {
                    Err(fault) => r matches Err(status) && status@ == context_status(fault)
                        && final(self)@ == old(self)@,
                    Ok(made) => r matches Ok(reply) && exists|token: Seq<char>| #[trigger]
                        is_handle(token) && is_new(token, old(self)@.contexts.dom()) && hands_out(reply, token) && final(self)@ == old(
                            self,
                        )@.after(Change::Open(token, made)) && has_functions(*register, *made),
                },
            },
    {
        match check_handshake(authorization, user, password) {
            Err(status) => {
                return Err(status);
            },
            Ok(()) => {},
        }
        let token = match self.create_ctx(context, register) {
            Err(status) => {
                return Err(status);
            },
            Ok(token) => token,
        };
        proof {
            lemma_handle_is_ascii(token@);
        }
        handshake_reply(token.as_str())
    }
}

impl Default for FlightSqlServiceImpl {
    fn default() -> (r: FlightSqlServiceImpl)
        ensures
            r@ == ServiceView::empty(),
    {
        FlightSqlServiceImpl::new()
    }
}

} // verus!
