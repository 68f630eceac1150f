//! Requests of Flight SQL that this server does not answer.

use vstd::prelude::*;

use crate::status::unimplemented;
use crate::status::Status;

verus! {

/// A request that this server does not answer.
#[derive(Debug, Clone, Copy, PartialEq, Eq, Structural)]
pub enum Unsupported {
    GetFlightInfoStatement,
    GetFlightInfoSubstraitPlan,
    GetFlightInfoCatalogs,
    GetFlightInfoSchemas,
    GetFlightInfoTables,
    GetFlightInfoTableTypes,
    GetFlightInfoSqlInfo,
    GetFlightInfoPrimaryKeys,
    GetFlightInfoExportedKeys,
    GetFlightInfoImportedKeys,
    GetFlightInfoCrossReference,
    GetFlightInfoXdbcTypeInfo,
    DoGetStatement,
    DoGetPreparedStatement,
    DoGetCatalogs,
    DoGetSchemas,
    DoGetTables,
    DoGetTableTypes,
    DoGetSqlInfo,
    DoGetPrimaryKeys,
    DoGetExportedKeys,
    DoGetImportedKeys,
    DoGetCrossReference,
    DoGetXdbcTypeInfo,
    DoPutStatementUpdate,
    DoPutSubstraitPlan,
    DoActionCreatePreparedSubstraitPlan,
    DoActionBeginTransaction,
    DoActionEndTransaction,
    DoActionBeginSavepoint,
    DoActionEndSavepoint,
    DoActionCancelQuery,
}

/// What a client is told that sends the request.
pub open spec fn unsupported_message(request: Unsupported) -> Seq<char> {
    match request {
        Unsupported::GetFlightInfoStatement => "Implement get_flight_info_statement"@,
        Unsupported::GetFlightInfoSubstraitPlan => "Implement get_flight_info_substrait_plan"@,
        Unsupported::GetFlightInfoCatalogs => "Implement get_flight_info_catalogs"@,
        Unsupported::GetFlightInfoSchemas => "Implement get_flight_info_schemas"@,
        Unsupported::GetFlightInfoTables => "Implement get_flight_info_tables"@,
        Unsupported::GetFlightInfoTableTypes => "Implement get_flight_info_table_types"@,
        Unsupported::GetFlightInfoSqlInfo => "Implement CommandGetSqlInfo"@,
        Unsupported::GetFlightInfoPrimaryKeys => "Implement get_flight_info_primary_keys"@,
        Unsupported::GetFlightInfoExportedKeys => "Implement get_flight_info_exported_keys"@,
        Unsupported::GetFlightInfoImportedKeys => "Implement get_flight_info_imported_keys"@,
        Unsupported::GetFlightInfoCrossReference => "Implement get_flight_info_cross_reference"@,
        Unsupported::GetFlightInfoXdbcTypeInfo => "Implement get_flight_info_xdbc_type_info"@,
        Unsupported::DoGetStatement => "Implement do_get_statement"@,
        Unsupported::DoGetPreparedStatement => "Implement do_get_prepared_statement"@,
        Unsupported::DoGetCatalogs => "Implement do_get_catalogs"@,
        Unsupported::DoGetSchemas => "Implement do_get_schemas"@,
        Unsupported::DoGetTables => "Implement do_get_tables"@,
        Unsupported::DoGetTableTypes => "Implement do_get_table_types"@,
        Unsupported::DoGetSqlInfo => "Implement do_get_sql_info"@,
        Unsupported::DoGetPrimaryKeys => "Implement do_get_primary_keys"@,
        Unsupported::DoGetExportedKeys => "Implement do_get_exported_keys"@,
        Unsupported::DoGetImportedKeys => "Implement do_get_imported_keys"@,
        Unsupported::DoGetCrossReference => "Implement do_get_cross_reference"@,
        Unsupported::DoGetXdbcTypeInfo => "Implement do_get_xdbc_type_info"@,
        Unsupported::DoPutStatementUpdate => "Implement do_put_statement_update"@,
        Unsupported::DoPutSubstraitPlan => "Implement do_put_prepared_statement_update"@,
        Unsupported::DoActionCreatePreparedSubstraitPlan => {
            "Implement do_action_create_prepared_substrait_plan"@
        },
        Unsupported::DoActionBeginTransaction => "Implement do_action_begin_transaction"@,
        Unsupported::DoActionEndTransaction => "Implement do_action_end_transaction"@,
        Unsupported::DoActionBeginSavepoint => "Implement do_action_begin_savepoint"@,
        Unsupported::DoActionEndSavepoint => "Implement do_action_end_savepoint"@,
        Unsupported::DoActionCancelQuery => "Implement do_action_cancel_query"@,
    }
}

impl Unsupported {
    /// The answer to the request: that it is not implemented.
    pub fn refuse(self) -> (r: Status)
        ensures
            r@ == unimplemented(unsupported_message(self)),
    {
        let message = match self {
            Unsupported::GetFlightInfoStatement => "Implement get_flight_info_statement",
            Unsupported::GetFlightInfoSubstraitPlan => "Implement get_flight_info_substrait_plan",
            Unsupported::GetFlightInfoCatalogs => "Implement get_flight_info_catalogs",
            Unsupported::GetFlightInfoSchemas => "Implement get_flight_info_schemas",
            Unsupported::GetFlightInfoTables => "Implement get_flight_info_tables",
            Unsupported::GetFlightInfoTableTypes => "Implement get_flight_info_table_types",
            Unsupported::GetFlightInfoSqlInfo => "Implement CommandGetSqlInfo",
            Unsupported::GetFlightInfoPrimaryKeys => "Implement get_flight_info_primary_keys",
            Unsupported::GetFlightInfoExportedKeys => "Implement get_flight_info_exported_keys",
            Unsupported::GetFlightInfoImportedKeys => "Implement get_flight_info_imported_keys",
            Unsupported::GetFlightInfoCrossReference => "Implement get_flight_info_cross_reference",
            Unsupported::GetFlightInfoXdbcTypeInfo => "Implement get_flight_info_xdbc_type_info",
            Unsupported::DoGetStatement => "Implement do_get_statement",
            Unsupported::DoGetPreparedStatement => "Implement do_get_prepared_statement",
            Unsupported::DoGetCatalogs => "Implement do_get_catalogs",
            Unsupported::DoGetSchemas => "Implement do_get_schemas",
            Unsupported::DoGetTables => "Implement do_get_tables",
            Unsupported::DoGetTableTypes => "Implement do_get_table_types",
            Unsupported::DoGetSqlInfo => "Implement do_get_sql_info",
            Unsupported::DoGetPrimaryKeys => "Implement do_get_primary_keys",
            Unsupported::DoGetExportedKeys => "Implement do_get_exported_keys",
            Unsupported::DoGetImportedKeys => "Implement do_get_imported_keys",
            Unsupported::DoGetCrossReference => "Implement do_get_cross_reference",
            Unsupported::DoGetXdbcTypeInfo => "Implement do_get_xdbc_type_info",
            Unsupported::DoPutStatementUpdate => "Implement do_put_statement_update",
            Unsupported::DoPutSubstraitPlan => "Implement do_put_prepared_statement_update",
            Unsupported::DoActionCreatePreparedSubstraitPlan => {
                "Implement do_action_create_prepared_substrait_plan"
            },
            Unsupported::DoActionBeginTransaction => "Implement do_action_begin_transaction",
            Unsupported::DoActionEndTransaction => "Implement do_action_end_transaction",
            Unsupported::DoActionBeginSavepoint => "Implement do_action_begin_savepoint",
            Unsupported::DoActionEndSavepoint => "Implement do_action_end_savepoint",
            Unsupported::DoActionCancelQuery => "Implement do_action_cancel_query",
        };
        Status::unimplemented(message.to_owned())
    }
}

} // verus!
