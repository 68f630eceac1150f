//! Functions without arguments that queries can call.

use arrow_schema::DataType;
use datafusion::error::DataFusionError;
use datafusion::logical_expr::ColumnarValue;
use datafusion::logical_expr::Signature;
use datafusion::logical_expr::Volatility;
use datafusion::scalar::ScalarValue;
use std::sync::Arc;
use vstd::prelude::*;

verus! {

/// The type of a value, carried through as it is.
#[verifier::external_type_specification]
#[verifier::external_body]
pub struct ExDataType(DataType);

/// The types of the arguments that a function takes, carried through as they are.
#[verifier::external_type_specification]
#[verifier::external_body]
pub struct ExSignature(Signature);

/// How often a function may return something else, carried through as it is.
#[verifier::external_type_specification]
#[verifier::external_body]
pub struct ExVolatility(Volatility);

/// A value or a column of values, carried through as it is.
#[verifier::external_type_specification]
#[verifier::external_body]
pub struct ExColumnarValue(ColumnarValue);

/// An error of the query engine, carried through as it is.
#[verifier::external_type_specification]
#[verifier::external_body]
pub struct ExDataFusionError(DataFusionError);

/// The signature of a function that takes arguments of exactly the given types.
pub uninterp spec fn exact_signature(types: Seq<DataType>, volatility: Volatility) -> Signature;

/// The value that is one text.
pub uninterp spec fn text_value(text: Seq<char>) -> ColumnarValue;

/// `Signature::exact`: the signature is made of the types and the volatility alone.
#[verifier::external_body]
fn make_signature(types: Vec<DataType>, volatility: Volatility) -> (r: Signature)
    ensures
        r == exact_signature(types@, volatility),
{
    Signature::exact(types, volatility)
}

/// `Arc::try_unwrap` of a type: the type, or where it is shared the pointer to it again.
#[verifier::external_body]
fn unwrap_type(shared: Arc<DataType>) -> (r: Result<DataType, Arc<DataType>>)
    ensures
        match r {
            Ok(data_type) => data_type == *shared,
            Err(still_shared) => *still_shared == *shared,
        },
{
    Arc::try_unwrap(shared)
}

/// `clone` of a type: the same type again.
#[verifier::external_body]
fn copy_type(data_type: &DataType) -> (r: DataType)
    ensures
        r == *data_type,
{
    data_type.clone()
}

/// The scalar `ScalarValue::Utf8` with a text, as a `ColumnarValue`.
#[verifier::external_body]
fn make_text_value(text: &str) -> (r: ColumnarValue)
    ensures
        r == text_value(text@),
{
    ColumnarValue::Scalar(ScalarValue::Utf8(Some(text.to_string())))
}

/// A function with one signature and one return type.
pub struct NoArgScalarUDF<F> {
    name: String,
    signature: Signature,
    return_type: DataType,
    fun: F,
}

/// What a function is made of.
pub struct UdfView<F> {
    pub name: Seq<char>,
    pub signature: Signature,
    pub return_type: DataType,
    pub fun: F,
}

impl<F> View for NoArgScalarUDF<F> {
    type V = UdfView<F>;

    closed spec fn view(&self) -> UdfView<F> {
        UdfView {
            name: self.name@,
            signature: self.signature,
            return_type: self.return_type,
            fun: self.fun,
        }
    }
}

/// Makes a function of a name, the types of its arguments, the type of what it returns, and what
/// it does.
pub fn create_no_arg_udf<F: Fn(&[ColumnarValue]) -> Result<ColumnarValue, DataFusionError>>(
    name: &str,
    input_types: Vec<DataType>,
    return_type: Arc<DataType>,
    volatility: Volatility,
    fun: F,
) -> (r: NoArgScalarUDF<F>)
    ensures
        r@ == (UdfView {
            name: name@,
            signature: exact_signature(input_types@, volatility),
            return_type: *return_type,
            fun,
        }),
{
    let return_type = match unwrap_type(return_type) {
        Ok(return_type) => return_type,
        Err(shared) => copy_type(&shared),
    };
    NoArgScalarUDF::new(name.to_owned(), input_types, return_type, volatility, fun)
}

impl<F: Fn(&[ColumnarValue]) -> Result<ColumnarValue, DataFusionError>> NoArgScalarUDF<F> {
    pub fn new(
        name: String,
        input_types: Vec<DataType>,
        return_type: DataType,
        volatility: Volatility,
        fun: F,
    ) -> (r: NoArgScalarUDF<F>)
        ensures
            r@ == (UdfView {
                name: name@,
                signature: exact_signature(input_types@, volatility),
                return_type,
                fun,
            }),
    {
        let signature = make_signature(input_types, volatility);
        NoArgScalarUDF { name, signature, return_type, fun }
    }

    pub fn name(&self) -> (r: &str)
        ensures
            r@ == self@.name,
    {
        self.name.as_str()
    }

    pub fn signature(&self) -> (r: &Signature)
        ensures
            *r == self@.signature,
    {
        &self.signature
    }

    /// The type of what the function returns, whatever it is given.
    pub fn return_type(&self, _arg_types: &[DataType]) -> (r: Result<DataType, DataFusionError>)
        ensures
            r == Ok::<DataType, DataFusionError>(self@.return_type),
    {
        Ok(copy_type(&self.return_type))
    }

    /// Calls the function with arguments.
    pub fn invoke(&self, args: &[ColumnarValue]) -> (r: Result<ColumnarValue, DataFusionError>)
        requires
            call_requires(self@.fun, (args,)),
        ensures
            call_ensures(self@.fun, (args,), r),
    {
        (self.fun)(args)
    }

    /// Calls the function without arguments, however many rows there are.
    pub fn invoke_no_args(&self, _num_rows: usize) -> (r: Result<ColumnarValue, DataFusionError>)
        requires
            forall|args: &[ColumnarValue]|
                (#[trigger] args@).len() == 0 ==> call_requires(self@.fun, (args,)),
        ensures
            exists|args: &[ColumnarValue]|
                (#[trigger] args@).len() == 0 && call_ensures(self@.fun, (args,), r),
    {
        let none: Vec<ColumnarValue> = Vec::new();
        let args: &[ColumnarValue] = none.as_slice();
        assert(args@.len() == 0);
        (self.fun)(args)
    }
}

/// The value that is one text.
pub fn scalar_utf8(schema: &str) -> (r: Result<ColumnarValue, DataFusionError>)
    ensures
        r == Ok::<ColumnarValue, DataFusionError>(text_value(schema@)),
{
    Ok(make_text_value(schema))
}

/// The types of values that the functions of a session return.
#[derive(Debug, Clone, Copy, PartialEq, Eq, Structural)]
pub enum ValueType {
    Utf8,
}

/// How often a function may return something else.
#[derive(Debug, Clone, Copy, PartialEq, Eq, Structural)]
pub enum Steadiness {
    Immutable,
    Stable,
    Volatile,
}

/// A type of values, as the query engine has it.
pub uninterp spec fn data_type_of(value_type: ValueType) -> DataType;

/// How often a function may return something else, as the query engine has it.
pub uninterp spec fn volatility_of(steadiness: Steadiness) -> Volatility;

/// The `DataType` of the same name.
#[verifier::external_body]
fn make_data_type(value_type: ValueType) -> (r: DataType)
    ensures
        r == data_type_of(value_type),
{
    match value_type {
        ValueType::Utf8 => DataType::Utf8,
    }
}

/// The `Volatility` of the same name.
#[verifier::external_body]
fn make_volatility(steadiness: Steadiness) -> (r: Volatility)
    ensures
        r == volatility_of(steadiness),
{
    match steadiness {
        Steadiness::Immutable => Volatility::Immutable,
        Steadiness::Stable => Volatility::Stable,
        Steadiness::Volatile => Volatility::Volatile,
    }
}

/// The functions that every session is given.
#[derive(Debug, Clone, Copy, PartialEq, Eq, Structural)]
pub enum SessionFunction {
    CurrentSchema,
    CurrentDatabase,
}

/// The name that queries call a function by.
pub open spec fn function_name(function: SessionFunction) -> Seq<char> {
    match function {
        SessionFunction::CurrentSchema => "current_schema"@,
        SessionFunction::CurrentDatabase => "current_database"@,
    }
}

/// The environment variable that a function returns.
pub open spec fn function_variable(function: SessionFunction) -> Seq<char> {
    match function {
        SessionFunction::CurrentSchema => "CURRENT_SCHEMA"@,
        SessionFunction::CurrentDatabase => "CURRENT_DATABASE"@,
    }
}

/// What a function returns where its variable is not set.
pub open spec fn function_default(function: SessionFunction) -> Seq<char> {
    match function {
        SessionFunction::CurrentSchema => "public"@,
        SessionFunction::CurrentDatabase => "datafusion"@,
    }
}

/// A text, or another where there is none.
pub open spec fn text_or(text: Option<String>, default: Seq<char>) -> Seq<char> {
    match text {
        Some(text) => text@,
        None => default,
    }
}

/// Whether something is what a function returns when its variable is read.
pub open spec fn is_value_of<R: Fn(&str) -> Option<String>>(
    function: SessionFunction,
    read: &R,
    value: Result<ColumnarValue, DataFusionError>,
) -> bool {
    exists|variable: &str, found: Option<String>|
        variable@ == function_variable(function) && #[trigger] call_ensures(
            *read,
            (variable,),
            found,
        ) && value == Ok::<ColumnarValue, DataFusionError>(
            text_value(text_or(found, function_default(function))),
        )
}

impl SessionFunction {
    /// All of the functions.
    pub fn all() -> (r: Vec<SessionFunction>)
        ensures
            r@ == seq![SessionFunction::CurrentSchema, SessionFunction::CurrentDatabase],
            forall|function: SessionFunction| #[trigger] r@.contains(function),
    {
        let all = vec![SessionFunction::CurrentSchema, SessionFunction::CurrentDatabase];
        assert(all@[0] == SessionFunction::CurrentSchema);
        assert(all@[1] == SessionFunction::CurrentDatabase);
        all
    }

    pub fn name(self) -> (r: &'static str)
        ensures
            r@ == function_name(self),
    {
        match self {
            SessionFunction::CurrentSchema => "current_schema",
            SessionFunction::CurrentDatabase => "current_database",
        }
    }

    pub fn variable(self) -> (r: &'static str)
        ensures
            r@ == function_variable(self),
    {
        match self {
            SessionFunction::CurrentSchema => "CURRENT_SCHEMA",
            SessionFunction::CurrentDatabase => "CURRENT_DATABASE",
        }
    }

    /// The types of the arguments: there are none.
    pub fn arguments(self) -> (r: Vec<DataType>)
        ensures
            r@.len() == 0,
    {
        Vec::new()
    }

    pub fn return_type(self) -> (r: ValueType)
        ensures
            r == ValueType::Utf8,
    {
        ValueType::Utf8
    }

    pub fn steadiness(self) -> (r: Steadiness)
        ensures
            r == Steadiness::Immutable,
    {
        Steadiness::Immutable
    }

    /// What the function returns when it is called: its variable is read at that time, not
    /// before.
    pub fn value<R: Fn(&str) -> Option<String>>(self, read: &R) -> (r: Result<
        ColumnarValue,
        DataFusionError,
    >)
        requires
            forall|variable: &str|
                #[trigger] variable@ == function_variable(self) ==> call_requires(
                    *read,
                    (variable,),
                ),
        ensures
            is_value_of(self, read, r),
    {
        let variable = self.variable();
        let found = read(variable);
        match found {
            Some(text) => scalar_utf8(text.as_str()),
            None => match self {
                SessionFunction::CurrentSchema => scalar_utf8("public"),
                SessionFunction::CurrentDatabase => scalar_utf8("datafusion"),
            },
        }
    }

    /// The function as queries call it.
    pub fn udf<R: Fn(&str) -> Option<String>>(self, read: R) -> (r: NoArgScalarUDF<
        impl Fn(&[ColumnarValue]) -> Result<ColumnarValue, DataFusionError>,
    >)
        requires
            forall|variable: &str|
                #[trigger] variable@ == function_variable(self) ==> call_requires(
                    read,
                    (variable,),
                ),
        ensures
            r@.name == function_name(self),
            r@.signature == exact_signature(Seq::empty(), volatility_of(Steadiness::Immutable)),
            r@.return_type == data_type_of(ValueType::Utf8),
            forall|args: &[ColumnarValue]| #[trigger] call_requires(r@.fun, (args,)),
            forall|args: &[ColumnarValue], value: Result<ColumnarValue, DataFusionError>|
                #[trigger] call_ensures(r@.fun, (args,), value) ==> is_value_of(self, &read, value),
    {
        let arguments = self.arguments();
        assert(arguments@ =~= Seq::empty());
        let fun = move |args: &[ColumnarValue]| -> (value: Result<ColumnarValue, DataFusionError>)
            ensures
                is_value_of(self, &read, value),
            { self.value(&read) };
        create_no_arg_udf(
            self.name(),
            arguments,
            Arc::new(make_data_type(self.return_type())),
            make_volatility(self.steadiness()),
            fun,
        )
    }
}

} // verus!
