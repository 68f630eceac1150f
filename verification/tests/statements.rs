use arrow::array::{ArrayRef, Int64Array, StringArray};
use arrow::ipc::writer::IpcWriteOptions;
use arrow_flight::{FlightInfo as OutsideFlightInfo, IpcMessage, SchemaAsIpc};
use arrow_schema::{DataType, Schema};
use datafusion::common::{DFSchema, DFSchemaRef};
use datafusion::logical_expr::expr::{Case, Placeholder};
use datafusion::logical_expr::{
    cast, col, in_subquery, lit, not, scalar_subquery, try_cast, Expr, Extension, Join, JoinConstraint, JoinType, Limit,
    LogicalPlan,
    LogicalPlanBuilder, UserDefinedLogicalNodeCore, Values,
};
use datafusion::prelude::SessionContext;
use iceberg_datafusion_arrow_flight::binding::bindable;
use iceberg_datafusion_arrow_flight::engine::{parameters_readable, read_parameters, RecordBatch};
use iceberg_datafusion_arrow_flight::metadata::MetadataValue;
use iceberg_datafusion_arrow_flight::FlightSqlServiceImpl;
use iceberg_datafusion_arrow_flight::statements::{
    describe_statement, ActionCreatePreparedStatementResult, DescriptorType, FlightInfo, ResultStream, Sites,
    StatementStep,
};
use iceberg_datafusion_arrow_flight::status::{Code, Status};
use iceberg_datafusion_arrow_flight::wire::{Any, FetchResults};
use std::fmt::Formatter;
use std::sync::Arc;

const ONE: &str = "SELECT c FROM (VALUES ('a'), ('b'), ('d')) AS t(c) WHERE c = $1";
const TWO: &str = "SELECT c FROM (VALUES ('a'), ('b'), ('d')) AS t(c) WHERE c > $1 AND c < $2";
const SITES: Sites<'static> = Sites { handle: "a.rs:1", execution: "a.rs:2", schema: "a.rs:3" };

fn session(service: &mut FlightSqlServiceImpl) -> MetadataValue {
    let token = service.create_ctx(Ok(Arc::new(SessionContext::new())), &|_, _| ()).unwrap();
    MetadataValue::from_bytes(format!("Bearer {token}").into_bytes()).unwrap()
}

fn plan(query: &str) -> LogicalPlan {
    let runtime = tokio::runtime::Builder::new_current_thread().build().unwrap();
    let context = SessionContext::new();
    runtime.block_on(context.sql(query)).unwrap().into_optimized_plan().unwrap()
}

fn execute(plan: LogicalPlan) -> Vec<RecordBatch> {
    let runtime = tokio::runtime::Builder::new_current_thread().build().unwrap();
    let context = SessionContext::new();
    let rows = runtime.block_on(async {
        context.execute_logical_plan(plan).await.unwrap().collect().await.unwrap()
    });
    rows.into_iter().map(|inner| RecordBatch { inner }).collect()
}

fn schema_message(schema: &Schema) -> Result<Vec<u8>, String> {
    let options = IpcWriteOptions::default();
    let message = IpcMessage::try_from(SchemaAsIpc::new(schema, &options));
    message.map(|IpcMessage(bytes)| bytes.to_vec()).map_err(|e| e.to_string())
}

fn plan_message(plan: &LogicalPlan) -> Result<Vec<u8>, String> {
    schema_message(&Schema::from(&**plan.schema()))
}

fn batch_message(batch: &RecordBatch) -> Result<Vec<u8>, String> {
    schema_message(&batch.inner.schema())
}

fn batch(column: ArrayRef) -> RecordBatch {
    let inner = arrow::record_batch::RecordBatch::try_from_iter([("c", column)]).unwrap();
    RecordBatch { inner }
}

fn text(value: &str) -> RecordBatch {
    batch(Arc::new(StringArray::from(vec![value])))
}

fn numbers() -> RecordBatch {
    batch(Arc::new(Int64Array::from(vec![1, 2])))
}

fn fails<T>(result: Result<T, Status>, code: Code, message: &str) {
    let status = result.err().unwrap();
    assert_eq!(status.code, code);
    assert_eq!(status.message, message);
}

fn prepare(service: &mut FlightSqlServiceImpl, plan: LogicalPlan) -> String {
    let reply = service.finish_prepared_statement(Ok(plan), plan_message, "a.rs:4").ok().unwrap();
    String::from_utf8(reply.prepared_statement_handle).unwrap()
}

fn roll_back(service: &mut FlightSqlServiceImpl) -> ActionCreatePreparedStatementResult {
    let authorization = session(service);
    let step =
        service.do_action_create_prepared_statement("rollback", Some(&authorization), "a.rs:5");
    match step {
        Ok(StatementStep::Answer(reply)) => reply,
        _ => panic!("not answered"),
    }
}

fn finish(
    service: &mut FlightSqlServiceImpl,
    handle: &str,
    batches: Vec<RecordBatch>,
) -> FlightInfo {
    service.finish_flight_info(handle, Ok(batches), batch_message, &SITES).ok().unwrap()
}

#[test]
fn rollback_is_answered_without_a_planner() {
    let mut service = FlightSqlServiceImpl::new();
    let reply = roll_back(&mut service);
    let handle = String::from_utf8(reply.prepared_statement_handle).unwrap();
    let plan = service.get_plan(&handle).ok().unwrap();
    assert_eq!(format!("{}", plan.display()), "Values: (Utf8(\"ROLLBACK\"))");
    assert_eq!(reply.dataset_schema, plan_message(&plan).unwrap());
    assert!(reply.parameter_schema.is_empty());
    let rows = execute(plan);
    assert_eq!(rows.len(), 1);
    assert_eq!(rows[0].parameter().unwrap(), "ROLLBACK");
    assert_eq!(rows[0].inner.schema().field(0).name(), "rollback");
}

#[test]
fn rollback_is_only_known_in_lower_case() {
    let mut service = FlightSqlServiceImpl::new();
    let authorization = session(&mut service);
    let step =
        service.do_action_create_prepared_statement("ROLLBACK", Some(&authorization), "a.rs:5");
    assert!(matches!(step, Ok(StatementStep::Plan { .. })));
}

#[test]
fn statement_is_planned_in_its_session() {
    let mut service = FlightSqlServiceImpl::new();
    let authorization = session(&mut service);
    let expected = service.get_ctx(Some(&authorization)).ok().unwrap();
    let step =
        service.do_action_create_prepared_statement("SELECT 1", Some(&authorization), "a.rs:5");
    match step {
        Ok(StatementStep::Plan { context }) => assert!(Arc::ptr_eq(&context, &expected)),
        _ => panic!("not to be planned"),
    }
}

#[test]
fn statement_needs_a_session() {
    let mut service = FlightSqlServiceImpl::new();
    fails(
        service.do_action_create_prepared_statement("rollback", None, "a.rs:5"),
        Code::Internal,
        "No authorization header!",
    );
}

#[test]
fn planned_statement_is_kept() {
    let mut service = FlightSqlServiceImpl::new();
    let made = plan("SELECT 1 AS one");
    let reply = service
        .finish_prepared_statement(Ok(made.clone()), plan_message, "a.rs:4")
        .ok()
        .unwrap();
    let handle = String::from_utf8(reply.prepared_statement_handle).unwrap();
    assert_eq!(service.get_plan(&handle).ok().unwrap(), made);
    assert_eq!(reply.dataset_schema, plan_message(&made).unwrap());
    assert!(reply.parameter_schema.is_empty());
    fails(
        service.get_result(&handle),
        Code::Internal,
        &format!("Request handle not found: {handle}"),
    );
}

#[test]
fn faults_of_a_planner_are_told() {
    let mut service = FlightSqlServiceImpl::new();
    fails(
        service.finish_prepared_statement(Err("no such table".to_string()), plan_message, "a.rs:4"),
        Code::Internal,
        "Error building plan: no such table",
    );
}

#[test]
fn faults_of_a_plan_schema_are_told() {
    let mut service = FlightSqlServiceImpl::new();
    let encode = |_: &LogicalPlan| Err("too odd".to_string());
    fails(
        service.finish_prepared_statement(Ok(plan("SELECT 1")), encode, "a.rs:4"),
        Code::Internal,
        "Unable to serialize schema: too odd at a.rs:4",
    );
    fails(
        service.keep_statement(plan("SELECT 1"), Err("too odd".to_string()), "a.rs:6"),
        Code::Internal,
        "Unable to serialize schema: too odd at a.rs:6",
    );
}

#[test]
fn prepared_statement_is_found_with_its_session() {
    let mut service = FlightSqlServiceImpl::new();
    let authorization = session(&mut service);
    let made = plan("SELECT 1");
    let handle = prepare(&mut service, made.clone());
    let query = service
        .get_flight_info_prepared_statement(handle.as_bytes(), Some(&authorization), &SITES)
        .ok()
        .unwrap();
    assert_eq!(query.handle, handle);
    assert_eq!(query.plan, made);
    let expected = service.get_ctx(Some(&authorization)).ok().unwrap();
    assert!(Arc::ptr_eq(&query.context, &expected));
}

#[test]
fn prepared_statement_faults_come_in_order() {
    let mut service = FlightSqlServiceImpl::new();
    let authorization = session(&mut service);
    fails(
        service.get_flight_info_prepared_statement(&[0xff], None, &SITES),
        Code::Internal,
        "Unable to parse uuid: invalid utf-8 sequence of 1 bytes from index 0 at a.rs:1",
    );
    fails(
        service.get_flight_info_prepared_statement(b"x", None, &SITES),
        Code::Internal,
        "No authorization header!",
    );
    fails(
        service.get_flight_info_prepared_statement(b"x", Some(&authorization), &SITES),
        Code::Internal,
        "Plan handle not found: x",
    );
}

#[test]
fn executed_statement_is_told_of() {
    let mut service = FlightSqlServiceImpl::new();
    let info = finish(&mut service, "h", vec![numbers(), text("a")]);
    assert_eq!(info.schema, batch_message(&numbers()).unwrap());
    assert_eq!(info.flight_descriptor.descriptor_type, DescriptorType::Cmd);
    assert!(info.flight_descriptor.cmd.is_empty());
    assert!(info.flight_descriptor.path.is_empty());
    assert_eq!(info.endpoint.len(), 1);
    let ticket = FetchResults { handle: "h".to_string() }.as_any().encode_to_vec();
    assert_eq!(info.endpoint[0].ticket, ticket);
    assert!(info.endpoint[0].location.is_empty());
    assert!(info.endpoint[0].expiration_time.is_none());
    assert!(info.endpoint[0].app_metadata.is_empty());
    assert_eq!(info.total_records, -1);
    assert_eq!(info.total_bytes, -1);
    assert!(!info.ordered);
    assert!(info.app_metadata.is_empty());
}

#[test]
fn result_without_batches_has_the_empty_schema() {
    let mut service = FlightSqlServiceImpl::new();
    let info = finish(&mut service, "h", vec![]);
    let expected = OutsideFlightInfo::new().try_with_schema(&Schema::empty()).unwrap();
    assert_eq!(info.schema, expected.schema.to_vec());
    let stream = service.open_result("h").ok().unwrap();
    assert!(matches!(stream, ResultStream::Empty));
}

#[test]
fn faults_of_an_execution_are_told_and_nothing_is_kept() {
    let mut service = FlightSqlServiceImpl::new();
    fails(
        service.finish_flight_info("h", Err("no memory".to_string()), batch_message, &SITES),
        Code::Internal,
        "Error executing query: no memory at a.rs:2",
    );
    fails(service.get_result("h"), Code::Internal, "Request handle not found: h");
}

#[test]
fn result_is_kept_though_its_schema_is_not_written() {
    let mut service = FlightSqlServiceImpl::new();
    let encode = |_: &RecordBatch| Err("too odd".to_string());
    fails(
        service.finish_flight_info("h", Ok(vec![numbers()]), encode, &SITES),
        Code::Internal,
        "Unable to serialize schema: too odd at a.rs:3",
    );
    assert_eq!(service.get_result("h").ok().unwrap().len(), 1);
    fails(
        service.keep_execution("i", vec![numbers()], Err("too odd".to_string()), "a.rs:7"),
        Code::Internal,
        "Unable to serialize schema: too odd at a.rs:7",
    );
    assert_eq!(service.get_result("i").ok().unwrap().len(), 1);
}

#[test]
fn kept_result_is_fetched_by_its_message() {
    let mut service = FlightSqlServiceImpl::new();
    finish(&mut service, "h", vec![numbers(), numbers()]);
    finish(&mut service, "other", vec![]);
    let message = FetchResults { handle: "h".to_string() }.as_any();
    match service.do_get_fallback(&message) {
        Ok(ResultStream::Batches { schema_of, batches }) => {
            assert_eq!(schema_of.inner, numbers().inner);
            assert_eq!(batches.len(), 2);
            assert_eq!(batches[1].inner, numbers().inner);
        }
        _ => panic!("not fetched"),
    }
}

#[test]
fn later_result_takes_the_place_of_an_earlier_one() {
    let mut service = FlightSqlServiceImpl::new();
    finish(&mut service, "h", vec![numbers()]);
    finish(&mut service, "h", vec![text("a"), text("b")]);
    let kept = service.get_result("h").ok().unwrap();
    assert_eq!(kept.len(), 2);
    assert_eq!(kept[0].inner, text("a").inner);
}

#[test]
fn fetch_faults_are_told() {
    let service = FlightSqlServiceImpl::new();
    let other = Any { type_url: "a.b/C".to_string(), value: vec![] };
    fails(
        service.do_get_fallback(&other),
        Code::Unimplemented,
        "do_get: The defined request is invalid: a.b/C",
    );
    let broken = Any { type_url: FetchResults::type_url().to_string(), value: vec![0x0a, 1, 0xff] };
    fails(
        service.do_get_fallback(&broken),
        Code::Internal,
        "ParseError(\"Unable to decode Any value: failed to decode Protobuf message: \
         FetchResults.handle: invalid string value: data is not UTF-8 encoded\")",
    );
    let unknown = FetchResults { handle: "x".to_string() }.as_any();
    fails(
        service.do_get_fallback(&unknown),
        Code::Internal,
        "Request handle not found: x",
    );
}

#[test]
fn parameters_take_the_place_of_placeholders() {
    let mut service = FlightSqlServiceImpl::new();
    let handle = prepare(&mut service, plan(TWO));
    let other = prepare(&mut service, plan(ONE));
    let parameters = vec![text("a"), text("c")];
    let put = service.do_put_prepared_statement_query(handle.as_bytes(), &parameters, "a.rs:8");
    assert!(put.is_ok());
    let rows = execute(service.get_plan(&handle).ok().unwrap());
    assert_eq!(rows[0].parameter().unwrap(), "b");
    assert_eq!(rows.iter().map(|batch| batch.inner.num_rows()).sum::<usize>(), 1);
    assert_eq!(service.get_plan(&other).ok().unwrap(), plan(ONE));
}

#[test]
fn only_the_first_row_of_a_parameter_counts() {
    let rows = batch(Arc::new(StringArray::from(vec!["a", "b"])));
    assert_eq!(read_parameters(&vec![rows, text("c")]).unwrap(), ["a", "c"]);
    assert!(read_parameters(&vec![]).unwrap().is_empty());
}

#[test]
fn parameter_faults_come_in_order() {
    let mut service = FlightSqlServiceImpl::new();
    let handle = prepare(&mut service, plan(ONE));
    let put = service.do_put_prepared_statement_query(&[0xff], &vec![numbers()], "a.rs:8");
    let status = put.unwrap_err();
    assert_eq!(status.code, Code::Internal);
    assert!(status.message.contains("could not cast"), "{}", status.message);
    fails(
        service.do_put_prepared_statement_query(&[0xff], &vec![text("a")], "a.rs:8"),
        Code::Internal,
        "Unable to parse uuid: invalid utf-8 sequence of 1 bytes from index 0 at a.rs:8",
    );
    fails(
        service.do_put_prepared_statement_query(b"x", &vec![text("a")], "a.rs:8"),
        Code::Internal,
        "Plan handle not found: x",
    );
    let put = service.do_put_prepared_statement_query(handle.as_bytes(), &vec![], "a.rs:8");
    let status = put.unwrap_err();
    assert_eq!(status.code, Code::Internal);
    assert!(status.message.contains("No value found for placeholder with id $1"));
    assert_eq!(service.get_plan(&handle).ok().unwrap(), plan(ONE));
}

#[test]
fn parameters_that_can_not_be_read_are_known() {
    let none = batch(Arc::new(StringArray::from(Vec::<&str>::new())));
    let empty = RecordBatch {
        inner: arrow::record_batch::RecordBatch::new_empty(Arc::new(Schema::empty())),
    };
    assert!(text("a").readable());
    assert!(!none.readable());
    assert!(!empty.readable());
    assert!(numbers().readable());
    assert!(parameters_readable(&vec![text("a"), numbers(), none.clone()]));
    assert!(!parameters_readable(&vec![text("a"), none.clone()]));
    let mut service = FlightSqlServiceImpl::new();
    assert!(!service.takes_parameters(b"x", &vec![none.clone()]));
    assert!(service.takes_parameters(b"x", &vec![text("a")]));
    assert!(service.takes_parameters(&[0xff], &vec![text("a")]));
    assert!(service.takes_parameters(b"x", &vec![numbers()]));
    assert!(service.try_put_prepared_statement_query(b"x", &vec![none], "a.rs:8").is_none());
}

#[test]
fn parameters_are_put_where_they_can_be() {
    let mut service = FlightSqlServiceImpl::new();
    let handle = prepare(&mut service, plan(ONE));
    let put =
        service.try_put_prepared_statement_query(handle.as_bytes(), &vec![text("a")], "a.rs:8");
    assert!(put.unwrap().is_ok());
    assert_ne!(service.get_plan(&handle).ok().unwrap(), plan(ONE));
}

fn placeholder(id: &str, data_type: Option<DataType>) -> Expr {
    Expr::Placeholder(Placeholder { id: id.to_string(), data_type })
}

fn select(expr: Expr) -> LogicalPlan {
    let schema = Arc::new(DFSchema::empty());
    LogicalPlan::Values(Values { schema, values: vec![vec![expr]] })
}

#[test]
fn placeholders_with_odd_names_are_known() {
    assert!(bindable(&plan(TWO)));
    assert!(bindable(&plan("SELECT 1")));
    let odd = placeholder("\u{e9}1", Some(DataType::Utf8));
    let odd = LogicalPlanBuilder::empty(true).project(vec![odd]).unwrap().build().unwrap();
    assert!(!bindable(&odd));
    let inside = scalar_subquery(Arc::new(odd.clone()));
    let outer = LogicalPlanBuilder::empty(true).project(vec![inside]).unwrap().build().unwrap();
    assert!(!bindable(&outer));
    let above = LogicalPlanBuilder::from(odd.clone()).limit(0, Some(1)).unwrap().build().unwrap();
    assert!(!bindable(&above));
    let mut service = FlightSqlServiceImpl::new();
    let handle = prepare(&mut service, odd);
    assert!(!service.takes_parameters(handle.as_bytes(), &vec![text("a")]));
    assert!(service.takes_parameters(handle.as_bytes(), &vec![numbers()]));
}

#[test]
fn placeholder_alone_can_be_bound() {
    let mut service = FlightSqlServiceImpl::new();
    assert!(bindable(&select(placeholder("$1", None))));
    let reply = service.keep_statement(select(placeholder("$1", None)), Ok(vec![]), "a.rs:4");
    let handle = reply.ok().unwrap().prepared_statement_handle;
    let put = service.try_put_prepared_statement_query(&handle, &vec![text("a")], "a.rs:8");
    assert!(put.unwrap().is_ok());
    let handle = String::from_utf8(handle).unwrap();
    assert_eq!(service.get_plan(&handle).ok().unwrap(), select(lit("a")));
}

#[test]
fn placeholder_beside_a_plain_operand_can_be_bound() {
    let empty = Arc::new(LogicalPlanBuilder::empty(true).build().unwrap());
    let within = in_subquery(lit(1), empty);
    for operand in [
        col("c"),
        lit("a"),
        cast(lit("a"), DataType::Utf8),
        try_cast(lit("a"), DataType::Utf8),
        placeholder("$2", None),
        placeholder("$2", Some(DataType::Utf8)),
        lit(1).between(lit(0), lit(2)),
        not(lit(true)),
        col("c").is_null(),
        col("c").is_not_null(),
        lit(true).is_true(),
        lit(true).is_not_true(),
        lit(true).is_false(),
        lit(true).is_not_false(),
        lit(true).is_unknown(),
        lit(true).is_not_unknown(),
        col("c").like(lit("a%")),
        col("c").in_list(vec![lit("a")], false),
        within,
    ] {
        assert!(bindable(&select(operand.clone().eq(placeholder("$1", None)))));
        assert!(bindable(&select(placeholder("$1", None).eq(operand.clone()))));
        assert!(bindable(&select(operand.between(placeholder("$1", None), lit("b")))));
    }
    let rows = plan("SELECT c FROM (VALUES ('a'), ('b')) AS t(c) WHERE c = $1");
    assert!(bindable(&rows));
}

#[test]
fn typed_placeholder_can_be_bound_beside_anything() {
    let branchless = Expr::Case(Case::new(None, vec![], None));
    assert!(bindable(&select(branchless.eq(placeholder("$1", Some(DataType::Utf8))))));
}

#[test]
fn placeholder_beside_an_operand_without_a_plain_type_is_known() {
    let branchless = Expr::Case(Case::new(None, vec![], None));
    let columnless = scalar_subquery(Arc::new(LogicalPlanBuilder::empty(true).build().unwrap()));
    let sum = lit(1) + lit(2);
    for operand in [branchless, columnless, sum] {
        assert!(!bindable(&select(operand.clone().eq(placeholder("$1", None)))));
        assert!(!bindable(&select(placeholder("$1", None).eq(operand.clone()))));
        assert!(!bindable(&select(operand.clone().between(placeholder("$1", None), lit(1)))));
        assert!(!bindable(&select(operand.clone().between(lit(1), placeholder("$1", None)))));
        assert!(bindable(&select(lit(1).between(placeholder("$1", None), operand))));
    }
}

fn join(on: (Expr, Expr), filter: Option<Expr>) -> LogicalPlan {
    let side = Arc::new(LogicalPlanBuilder::empty(true).build().unwrap());
    LogicalPlan::Join(Join {
        left: side.clone(),
        right: side,
        on: vec![on],
        filter,
        join_type: JoinType::Inner,
        join_constraint: JoinConstraint::On,
        schema: Arc::new(DFSchema::empty()),
        null_equals_null: false,
    })
}

#[test]
fn keys_of_a_join_give_each_other_no_type() {
    let branchless = Expr::Case(Case::new(None, vec![], None));
    assert!(bindable(&join((branchless.clone(), placeholder("$1", None)), None)));
    let filter = branchless.clone().eq(placeholder("$1", None));
    assert!(!bindable(&join((lit(1), lit(2)), Some(filter.clone()))));
    assert!(!bindable(&join((lit(true), filter), None)));
    assert!(!bindable(&join((lit(1), placeholder("\u{e9}1", None)), None)));
    let mut service = FlightSqlServiceImpl::new();
    let plan = join((branchless, placeholder("$1", None)), None);
    let reply = service.keep_statement(plan, Ok(vec![]), "a.rs:4").ok().unwrap();
    let handle = reply.prepared_statement_handle;
    let put = service.try_put_prepared_statement_query(&handle, &vec![text("a")], "a.rs:8");
    assert!(put.unwrap().is_ok());
}

#[test]
fn parameters_depend_on_first_texts_only() {
    let mut service = FlightSqlServiceImpl::new();
    let a = prepare(&mut service, plan(ONE));
    let b = prepare(&mut service, plan(ONE));
    let rows: ArrayRef = Arc::new(StringArray::from(vec!["a", "z"]));
    let more: ArrayRef = Arc::new(Int64Array::from(vec![7, 8]));
    let wide = arrow::record_batch::RecordBatch::try_from_iter([("x", rows), ("y", more)]);
    let wide = vec![RecordBatch { inner: wide.unwrap() }];
    assert!(service.do_put_prepared_statement_query(a.as_bytes(), &wide, "a.rs:8").is_ok());
    let narrow = vec![text("a")];
    assert!(service.do_put_prepared_statement_query(b.as_bytes(), &narrow, "a.rs:8").is_ok());
    assert_eq!(service.get_plan(&a).ok().unwrap(), service.get_plan(&b).ok().unwrap());
}

#[test]
fn second_parameters_are_bound_into_the_plan_of_the_first() {
    let mut service = FlightSqlServiceImpl::new();
    let handle = prepare(&mut service, plan(ONE));
    for value in ["a", "b"] {
        assert!(service.takes_parameters(handle.as_bytes(), &vec![text(value)]));
        let put = service.do_put_prepared_statement_query(
            handle.as_bytes(),
            &vec![text(value)],
            "a.rs:8",
        );
        assert!(put.is_ok());
    }
    let rows = execute(service.get_plan(&handle).ok().unwrap());
    assert_eq!(rows[0].parameter().unwrap(), "a");
}

#[test]
fn plan_that_can_not_be_bound_is_left_alone() {
    let branchless = Expr::Case(Case::new(None, vec![], None));
    let odd = select(branchless.eq(placeholder("$1", None)));
    let mut service = FlightSqlServiceImpl::new();
    let reply = service.keep_statement(odd.clone(), Ok(vec![]), "a.rs:4").ok().unwrap();
    let handle = reply.prepared_statement_handle;
    let put = service.try_put_prepared_statement_query(&handle, &vec![text("a")], "a.rs:8");
    assert!(put.is_none());
    let handle = String::from_utf8(handle).unwrap();
    assert_eq!(service.get_plan(&handle).ok().unwrap(), odd);
}

#[derive(Debug, PartialEq, Eq, Hash)]
struct ForeignNode {
    schema: DFSchemaRef,
}

impl UserDefinedLogicalNodeCore for ForeignNode {
    fn name(&self) -> &str {
        "Foreign"
    }

    fn inputs(&self) -> Vec<&LogicalPlan> {
        panic!("asked for inputs")
    }

    fn schema(&self) -> &DFSchemaRef {
        &self.schema
    }

    fn expressions(&self) -> Vec<Expr> {
        panic!("asked for expressions")
    }

    fn fmt_for_explain(&self, f: &mut Formatter) -> std::fmt::Result {
        f.write_str("Foreign")
    }

    fn from_template(&self, _exprs: &[Expr], _inputs: &[LogicalPlan]) -> Self {
        panic!("rebuilt")
    }
}

#[test]
fn plan_with_a_foreign_node_is_known() {
    let node = ForeignNode { schema: Arc::new(DFSchema::empty()) };
    let foreign = LogicalPlan::Extension(Extension { node: Arc::new(node) });
    assert!(!bindable(&foreign));
    let above = LogicalPlan::Limit(Limit { skip: 0, fetch: None, input: Arc::new(foreign) });
    assert!(!bindable(&above));
}

#[test]
fn bound_plan_needs_a_statement() {
    let mut service = FlightSqlServiceImpl::new();
    fails(
        service.keep_bound("h", Ok(plan("SELECT 1")), "a.rs:9"),
        Code::Internal,
        "Handle {} not found: h at a.rs:9",
    );
    fails(service.get_plan("h"), Code::Internal, "Plan handle not found: h");
    fails(
        service.keep_bound("h", Err("wrong type".to_string()), "a.rs:9"),
        Code::Internal,
        "wrong type",
    );
    let handle = prepare(&mut service, plan(ONE));
    assert!(service.keep_bound(&handle, Ok(plan("SELECT 1")), "a.rs:9").is_ok());
    assert_eq!(service.get_plan(&handle).ok().unwrap(), plan("SELECT 1"));
}

#[test]
fn closed_statement_is_gone() {
    let mut service = FlightSqlServiceImpl::new();
    let authorization = session(&mut service);
    let handle = prepare(&mut service, plan("SELECT 1"));
    let other = prepare(&mut service, plan("SELECT 2"));
    finish(&mut service, &handle, vec![numbers()]);
    finish(&mut service, &other, vec![numbers()]);
    for _ in 0..2 {
        assert!(service.do_action_close_prepared_statement(handle.as_bytes()).is_ok());
        assert!(service.get_plan(&handle).is_err());
        assert!(service.get_result(&handle).is_err());
        assert!(service.get_plan(&other).is_ok());
        assert!(service.get_result(&other).is_ok());
        assert!(service.get_ctx(Some(&authorization)).is_ok());
    }
}

#[test]
fn closing_what_is_no_handle_changes_nothing() {
    let mut service = FlightSqlServiceImpl::new();
    let handle = prepare(&mut service, plan("SELECT 1"));
    assert!(service.do_action_close_prepared_statement(&[0xff]).is_ok());
    assert!(service.get_plan(&handle).is_ok());
}

#[test]
fn updates_have_an_unknown_number_of_rows() {
    let service = FlightSqlServiceImpl::new();
    assert_eq!(service.do_put_prepared_statement_update().unwrap(), -1);
}

#[test]
fn statement_is_told_of_by_its_handle() {
    let reply = describe_statement("h", Ok(vec![1, 2]), "a.rs:9").ok().unwrap();
    assert_eq!(reply.prepared_statement_handle, b"h");
    assert_eq!(reply.dataset_schema, [1, 2]);
    assert!(reply.parameter_schema.is_empty());
}
