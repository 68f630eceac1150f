//! What the query engine hands over and takes back: contexts, plans and batches of rows.

use arrow_flight::IpcMessage;
use arrow_flight::SchemaAsIpc;
use arrow_schema::ArrowError;
use arrow_schema::DataType;
use arrow_schema::Field;
use arrow_schema::Schema;
use datafusion::common::cast::as_string_array;
use datafusion::common::DFSchema;
use datafusion::logical_expr::Expr;
use datafusion::logical_expr::LogicalPlan;
use datafusion::logical_expr::Values;
use datafusion::prelude::SessionContext;
use datafusion::scalar::ScalarValue;
use std::sync::Arc;
use vstd::prelude::*;

verus! {

/// A context of the query engine, carried through as it is.
#[verifier::external_type_specification]
#[verifier::external_body]
pub struct ExSessionContext(SessionContext);

/// A plan of the query engine, carried through as it is.
#[verifier::external_type_specification]
#[verifier::external_body]
pub struct ExLogicalPlan(LogicalPlan);

/// A batch of rows: the columns that an `arrow::record_batch::RecordBatch` collects. The
/// verifier takes no declaration of that type itself, because it can be indexed to trait
/// objects.
#[verifier::external_body]
pub struct RecordBatch {
    pub inner: arrow::record_batch::RecordBatch,
}

impl Clone for RecordBatch {
    /// `clone` of a batch: the same columns again.
    #[verifier::external_body]
    fn clone(&self) -> (r: Self)
        ensures
            r == *self,
    {
        RecordBatch { inner: self.inner.clone() }
    }
}

/// The number of columns of a batch.
pub uninterp spec fn batch_columns(batch: RecordBatch) -> nat;

/// The number of rows of a batch.
pub uninterp spec fn batch_rows(batch: RecordBatch) -> nat;

/// What is wrong with the first column of a batch where it is to be a column of texts.
pub uninterp spec fn text_column_fault(batch: RecordBatch) -> Option<Seq<char>>;

/// The text in the first row of the first column of a batch.
pub uninterp spec fn first_text(batch: RecordBatch) -> Seq<char>;

/// The plan that yields one row with one text, in a column that may hold nulls or may not.
pub uninterp spec fn text_plan(column: Seq<char>, nullable: bool, value: Seq<char>) -> LogicalPlan;

/// The bytes by which a client is told the schema of a result whose columns hold texts, and may
/// hold nulls or may not.
pub uninterp spec fn text_schema_message(columns: Seq<Seq<char>>, nullable: bool) -> Seq<u8>;

/// Texts, each seen as its characters.
pub open spec fn texts_view(texts: Seq<String>) -> Seq<Seq<char>> {
    texts.map_values(|t: String| t@)
}

/// An optional text, seen as its characters.
pub open spec fn fault_view(fault: Option<String>) -> Option<Seq<char>> {
    match fault {
        Some(text) => Some(text@),
        None => None,
    }
}

/// Whether the first text of a batch can be asked for: the batch has a first column, and a
/// first row unless that column holds no texts.
pub open spec fn is_readable(batch: RecordBatch) -> bool {
    batch_columns(batch) > 0 && (text_column_fault(batch) is None ==> batch_rows(batch) > 0)
}

impl RecordBatch {
    /// `num_columns` of a batch.
    #[verifier::external_body]
    fn num_columns(&self) -> (r: usize)
        ensures
            r == batch_columns(*self),
    {
        self.inner.num_columns()
    }

    /// `num_rows` of a batch.
    #[verifier::external_body]
    fn num_rows(&self) -> (r: usize)
        ensures
            r == batch_rows(*self),
    {
        self.inner.num_rows()
    }

    /// `datafusion::common::cast::as_string_array` on the first column: fails where it is no
    /// array of texts. The error is handed on as arrow's, whose message is returned.
    #[verifier::external_body]
    fn text_column_fault(&self) -> (r: Option<String>)
        requires
            batch_columns(*self) > 0,
        ensures
            fault_view(r) == text_column_fault(*self),
    {
        as_string_array(self.inner.column(0)).err().map(|e| ArrowError::from(e).to_string())
    }

    /// `value` of the first column, an array of texts, at its first row.
    #[verifier::external_body]
    fn first_text(&self) -> (r: String)
        requires
            batch_columns(*self) > 0,
            batch_rows(*self) > 0,
            text_column_fault(*self) is None,
        ensures
            r@ == first_text(*self),
    {
        as_string_array(self.inner.column(0)).unwrap().value(0).to_string()
    }

    /// Whether the first text of the batch can be asked for.
    pub fn readable(&self) -> (r: bool)
        ensures
            r == is_readable(*self),
    {
        self.num_columns() > 0 && (self.text_column_fault().is_some() || self.num_rows() > 0)
    }

    /// The first text of the batch, or what is wrong with its first column.
    pub fn parameter(&self) -> (r: Result<String, String>)
        requires
            is_readable(*self),
        ensures
            parameter_view(r) == parameter_of(*self),
    {
        match self.text_column_fault() {
            Some(fault) => Err(fault),
            None => Ok(self.first_text()),
        }
    }
}

/// The first text of a batch, or what is wrong with its first column.
pub open spec fn parameter_of(batch: RecordBatch) -> Result<Seq<char>, Seq<char>> {
    match text_column_fault(batch) {
        Some(fault) => Err(fault),
        None => Ok(first_text(batch)),
    }
}

/// A text or the text of an error.
pub open spec fn parameter_view(r: Result<String, String>) -> Result<Seq<char>, Seq<char>> {
    match r {
        Ok(text) => Ok(text@),
        Err(fault) => Err(fault@),
    }
}

/// The first texts of some batches, or what is wrong with the first batch that has none.
pub open spec fn parameters_of(batches: Seq<RecordBatch>) -> Result<Seq<Seq<char>>, Seq<char>>
    decreases batches.len(),
{
    if batches.len() == 0 {
        Ok(Seq::empty())
    } else {
        match parameters_of(batches.drop_last()) {
            Err(fault) => Err(fault),
            Ok(before) => match parameter_of(batches.last()) {
                Err(fault) => Err(fault),
                Ok(text) => Ok(before.push(text)),
            },
        }
    }
}

/// Whether the first text of every batch can be asked for, up to the first that has none.
pub open spec fn are_readable(batches: Seq<RecordBatch>) -> bool {
    forall|i: int|
        0 <= i < batches.len() && parameters_of(#[trigger] batches.take(i)) is Ok ==> is_readable(
            batches[i],
        )
}

/// Texts or the text of an error.
pub open spec fn parameters_view(r: Result<Vec<String>, String>) -> Result<
    Seq<Seq<char>>,
    Seq<char>,
> {
    match r {
        Ok(texts) => Ok(texts_view(texts@)),
        Err(fault) => Err(fault@),
    }
}

/// The values that a client sends for the parameters of a statement: one batch for each, with
/// the value in its first row and column.
pub fn read_parameters(batches: &Vec<RecordBatch>) -> (r: Result<Vec<String>, String>)
    requires
        are_readable(batches@),
    ensures
        parameters_view(r) == parameters_of(batches@),
{
    let mut values: Vec<String> = Vec::new();
    let mut i: usize = 0;
    assert(batches@.take(0) =~= Seq::empty());
    assert(texts_view(values@) =~= Seq::empty());
    while i < batches.len()
        invariant
            i <= batches@.len(),
            are_readable(batches@),
            parameters_of(batches@.take(i as int)) == Ok::<Seq<Seq<char>>, Seq<char>>(
                texts_view(values@),
            ),
        decreases batches@.len() - i,
    {
        assert(batches@.take(i + 1).drop_last() =~= batches@.take(i as int));
        match batches[i].parameter() {
            Err(fault) => {
                proof {
                    lemma_fault_stays(batches@, i as int + 1);
                }
                return Err(fault);
            },
            Ok(value) => {
                let ghost before = values@;
                values.push(value);
                assert(texts_view(values@) =~= texts_view(before).push(value@));
            },
        }
        i = i + 1;
    }
    assert(batches@.take(i as int) =~= batches@);
    Ok(values)
}

/// What is wrong with the first batches is what is wrong with all.
pub proof fn lemma_fault_stays(batches: Seq<RecordBatch>, n: int)
    requires
        0 <= n <= batches.len(),
        parameters_of(batches.take(n)) is Err,
    ensures
        parameters_of(batches) == parameters_of(batches.take(n)),
    decreases batches.len(),
{
    if n == batches.len() {
        assert(batches.take(n) =~= batches);
    } else {
        assert(batches.drop_last().take(n) =~= batches.take(n));
        lemma_fault_stays(batches.drop_last(), n);
    }
}

/// Whether the values that a client sends can be asked for.
pub fn parameters_readable(batches: &Vec<RecordBatch>) -> (r: bool)
    ensures
        r == are_readable(batches@),
{
    let mut i: usize = 0;
    assert(batches@.take(0) =~= Seq::empty());
    while i < batches.len()
        invariant
            i <= batches@.len(),
            parameters_of(batches@.take(i as int)) is Ok,
            forall|j: int|
                0 <= j < i && parameters_of(#[trigger] batches@.take(j)) is Ok ==> is_readable(
                    batches@[j],
                ),
        decreases batches@.len() - i,
    {
        assert(batches@.take(i + 1).drop_last() =~= batches@.take(i as int));
        if !batches[i].readable() {
            return false;
        }
        if batches[i].parameter().is_err() {
            proof {
                assert forall|j: int|
                    0 <= j < batches@.len() && parameters_of(
                        #[trigger] batches@.take(j),
                    ) is Ok implies is_readable(batches@[j]) by {
                    if j > i {
                        assert(batches@.take(j).take(i + 1) =~= batches@.take(i + 1));
                        lemma_fault_stays(batches@.take(j), i + 1);
                    }
                }
            }
            return true;
        }
        i = i + 1;
    }
    true
}

/// `clone` of a plan: the same plan again.
#[verifier::external_body]
pub(crate) fn copy_plan(plan: &LogicalPlan) -> (r: LogicalPlan)
    ensures
        r == *plan,
{
    plan.clone()
}

/// The plan `LogicalPlan::Values` with one row of one text, in a column of the given name and
/// nullability. `DFSchema::try_from` takes the schema of any such column.
#[verifier::external_body]
pub(crate) fn make_text_plan(column: &str, nullable: bool, value: &str) -> (r: Result<
    LogicalPlan,
    String,
>)
    ensures
        r is Ok,
        r->Ok_0 == text_plan(column@, nullable, value@),
{
    let schema = Schema::new(vec![Field::new(column, DataType::Utf8, nullable)]);
    let schema = DFSchema::try_from(schema).map_err(|e| e.to_string())?;
    let value = Expr::Literal(ScalarValue::Utf8(Some(value.to_string())));
    Ok(LogicalPlan::Values(Values { schema: Arc::new(schema), values: vec![vec![value]] }))
}

/// The `IpcMessage` of a `SchemaAsIpc` with default options, for a schema whose columns hold
/// texts: the bytes depend on the names of the columns and their nullability alone, and writing
/// them to memory does not fail. The names are short, as such a message can not be of any
/// length.
#[verifier::external_body]
pub(crate) fn make_text_schema_message(columns: Vec<String>, nullable: bool) -> (r: Result<
    Vec<u8>,
    String,
>)
    requires
        columns@.len() <= 1,
        forall|i: int| 0 <= i < columns@.len() ==> (#[trigger] columns@[i])@.len() <= 1024,
    ensures
        r is Ok,
        r->Ok_0@ == text_schema_message(texts_view(columns@), nullable),
{
    let fields = columns.into_iter().map(|name| Field::new(name, DataType::Utf8, nullable));
    let schema = Schema::new(fields.collect::<Vec<_>>());
    let message = IpcMessage::try_from(SchemaAsIpc::new(&schema, &Default::default()));
    message.map(|IpcMessage(bytes)| bytes.to_vec()).map_err(|e| e.to_string())
}

} // verus!
