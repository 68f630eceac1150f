//! How servers, sessions and their functions are set up, and which requests they refuse.

use datafusion::error::DataFusionError;
use datafusion::logical_expr::ColumnarValue;
use datafusion::logical_expr::LogicalPlan;
use vstd::prelude::*;

use crate::engine::RecordBatch;
use crate::settings::is_true;
use crate::settings::rest_store;
use crate::settings::RestEnvironment;
use crate::settings::Store;
use crate::tables::entry;
use crate::tables::nothing;
use crate::tables::replaced;
use crate::tables::result_view;
use crate::udf::function_default;
use crate::udf::function_name;
use crate::udf::function_variable;
use crate::udf::is_value_of;
use crate::udf::text_or;
use crate::udf::text_value;
use crate::udf::SessionFunction;
use crate::unsupported::unsupported_message;
use crate::unsupported::Unsupported;

verus! {

/// Tables are stored in a bucket where its name and a whole key are given, by that name, that key
/// and the endpoint that is given, and over plain HTTP only if that is asked for by one word.
/// Otherwise they are stored in memory.
pub proof fn law_bucket_needs_its_name_and_a_key(
    environment: RestEnvironment,
    store: Store,
    name: String,
    id: String,
    secret: String,
)
    requires
        rest_store(environment, store),
    ensures
        environment.bucket == Some(name) && environment.access_key_id == Some(id)
            && environment.secret_access_key == Some(secret) ==> {
            &&& store matches Store::S3(bucket)
            &&& bucket.name@ == name@
            &&& bucket.credentials matches Some(key)
            &&& key.access_key_id@ == id@
            &&& key.secret_access_key@ == secret@
            &&& bucket.endpoint == environment.endpoint
            &&& bucket.allow_http <==> (environment.allow_http matches Some(word) && word@
                == "TRUE"@)
        },
        environment.bucket is None || environment.access_key_id is None
            || environment.secret_access_key is None ==> store is Memory,
{
}

/// Only one word means yes.
pub proof fn law_one_word_means_yes(word: String)
    ensures
        is_true(Some(word)) <==> word@ == "TRUE"@,
        !is_true(None),
{
}

/// A function of a session returns what its variable is set to, whatever that is, when it is
/// called.
pub proof fn law_function_returns_its_variable<R: Fn(&str) -> Option<String>>(
    function: SessionFunction,
    read: R,
    text: String,
    value: Result<ColumnarValue, DataFusionError>,
)
    requires
        is_value_of(function, &read, value),
        forall|variable: &str, found: Option<String>|
            variable@ == function_variable(function) && #[trigger] call_ensures(
                read,
                (variable,),
                found,
            ) ==> found == Some(text),
    ensures
        value == Ok::<ColumnarValue, DataFusionError>(text_value(text@)),
{
}

/// A function of a session returns its default where its variable is not set when it is called.
pub proof fn law_function_has_a_default<R: Fn(&str) -> Option<String>>(
    function: SessionFunction,
    read: R,
    value: Result<ColumnarValue, DataFusionError>,
)
    requires
        is_value_of(function, &read, value),
        forall|variable: &str, found: Option<String>|
            variable@ == function_variable(function) && #[trigger] call_ensures(
                read,
                (variable,),
                found,
            ) ==> found is None,
    ensures
        function == SessionFunction::CurrentSchema ==> value == Ok::<
            ColumnarValue,
            DataFusionError,
        >(text_value("public"@)),
        function == SessionFunction::CurrentDatabase ==> value == Ok::<
            ColumnarValue,
            DataFusionError,
        >(text_value("datafusion"@)),
{
}

/// Each function of a session has its own name and its own variable.
pub proof fn law_functions_are_told_apart(text: String, default: Seq<char>)
    ensures
        function_name(SessionFunction::CurrentSchema) == "current_schema"@,
        function_name(SessionFunction::CurrentDatabase) == "current_database"@,
        function_variable(SessionFunction::CurrentSchema) == "CURRENT_SCHEMA"@,
        function_variable(SessionFunction::CurrentDatabase) == "CURRENT_DATABASE"@,
        function_default(SessionFunction::CurrentSchema) == "public"@,
        function_default(SessionFunction::CurrentDatabase) == "datafusion"@,
        text_or(Some(text), default) == text@,
        text_or(None, default) == default,
{
}

/// What a table keeps is found by its key, a plan is replaced only where there is one, and a new
/// table keeps nothing.
pub proof fn law_tables_keep_by_key<T>(
    map: Map<Seq<char>, T>,
    plans: Map<Seq<char>, LogicalPlan>,
    key: Seq<char>,
    plan: LogicalPlan,
    batches: Vec<RecordBatch>,
)
    ensures
        map.dom().contains(key) ==> entry(map, key) == Some(map[key]),
        !map.dom().contains(key) ==> entry(map, key) is None,
        plans.dom().contains(key) ==> replaced(plans, key, plan) == plans.insert(key, plan),
        !plans.dom().contains(key) ==> replaced(plans, key, plan) == plans,
        !nothing::<T>().dom().contains(key),
        result_view(Some(batches)) == Some(batches@),
        result_view(None) is None,
{
}

/// A request that is not supported is refused with its name, but for two that go by another.
pub proof fn law_refusals_name_the_request(request: Unsupported)
    ensures
        unsupported_message(request) == match request {
            Unsupported::GetFlightInfoStatement => "Implement get_flight_info_statement"@,
            Unsupported::GetFlightInfoSubstraitPlan => "Implement get_flight_info_substrait_plan"@,
            Unsupported::GetFlightInfoCatalogs => "Implement get_flight_info_catalogs"@,
            Unsupported::GetFlightInfoSchemas => "Implement get_flight_info_schemas"@,
            Unsupported::GetFlightInfoTables => "Implement get_flight_info_tables"@,
            Unsupported::GetFlightInfoTableTypes => "Implement get_flight_info_table_types"@,
            Unsupported::GetFlightInfoSqlInfo => "Implement CommandGetSqlInfo"@,
            Unsupported::GetFlightInfoPrimaryKeys => "Implement get_flight_info_primary_keys"@,
            Unsupported::GetFlightInfoExportedKeys => "Implement get_flight_info_exported_keys"@,
            Unsupported::GetFlightInfoImportedKeys => "Implement get_flight_info_imported_keys"@,
            Unsupported::GetFlightInfoCrossReference => {
                "Implement get_flight_info_cross_reference"@
            },
            Unsupported::GetFlightInfoXdbcTypeInfo => "Implement get_flight_info_xdbc_type_info"@,
            Unsupported::DoGetStatement => "Implement do_get_statement"@,
            Unsupported::DoGetPreparedStatement => "Implement do_get_prepared_statement"@,
            Unsupported::DoGetCatalogs => "Implement do_get_catalogs"@,
            Unsupported::DoGetSchemas => "Implement do_get_schemas"@,
            Unsupported::DoGetTables => "Implement do_get_tables"@,
            Unsupported::DoGetTableTypes => "Implement do_get_table_types"@,
            Unsupported::DoGetSqlInfo => "Implement do_get_sql_info"@,
            Unsupported::DoGetPrimaryKeys => "Implement do_get_primary_keys"@,
            Unsupported::DoGetExportedKeys => "Implement do_get_exported_keys"@,
            Unsupported::DoGetImportedKeys => "Implement do_get_imported_keys"@,
            Unsupported::DoGetCrossReference => "Implement do_get_cross_reference"@,
            Unsupported::DoGetXdbcTypeInfo => "Implement do_get_xdbc_type_info"@,
            Unsupported::DoPutStatementUpdate => "Implement do_put_statement_update"@,
            Unsupported::DoPutSubstraitPlan => "Implement do_put_prepared_statement_update"@,
            Unsupported::DoActionCreatePreparedSubstraitPlan => {
                "Implement do_action_create_prepared_substrait_plan"@
            },
            Unsupported::DoActionBeginTransaction => "Implement do_action_begin_transaction"@,
            Unsupported::DoActionEndTransaction => "Implement do_action_end_transaction"@,
            Unsupported::DoActionBeginSavepoint => "Implement do_action_begin_savepoint"@,
            Unsupported::DoActionEndSavepoint => "Implement do_action_end_savepoint"@,
            Unsupported::DoActionCancelQuery => "Implement do_action_cancel_query"@,
        },
{
}

} // verus!
