use arrow_schema::DataType;
use datafusion::error::DataFusionError;
use datafusion::logical_expr::{ColumnarValue, Signature, Volatility};
use datafusion::scalar::ScalarValue;
use iceberg_datafusion_arrow_flight::settings::{
    rest_settings, session_settings, sql_settings, RestEnvironment, SqlEnvironment, Store,
};
use iceberg_datafusion_arrow_flight::status::{Code, Status};
use iceberg_datafusion_arrow_flight::udf::{
    create_no_arg_udf, scalar_utf8, NoArgScalarUDF, SessionFunction, Steadiness, ValueType,
};
use iceberg_datafusion_arrow_flight::unsupported::Unsupported;
use std::sync::{Arc, Mutex};

fn some(text: &str) -> Option<String> {
    Some(text.to_string())
}

fn rest() -> RestEnvironment {
    RestEnvironment {
        catalog_url: some("http://catalog"),
        bearer_token: some("bearer"),
        oauth_token: some("oauth"),
        username: some("user"),
        password: some("pass"),
        bucket: some("bucket"),
        access_key_id: some("id"),
        secret_access_key: some("secret"),
        endpoint: some("http://s3"),
        allow_http: some("TRUE"),
        tls_domain: some("example.com"),
    }
}

fn text_of(value: Result<ColumnarValue, DataFusionError>) -> String {
    match value.unwrap() {
        ColumnarValue::Scalar(ScalarValue::Utf8(Some(text))) => text,
        other => panic!("{other:?}"),
    }
}

#[test]
fn rest_server_takes_all_that_is_set() {
    let settings = rest_settings(rest()).unwrap();
    assert_eq!(settings.catalog_url, "http://catalog");
    let auth = settings.basic_auth.unwrap();
    assert_eq!(auth.username, "user");
    assert_eq!(auth.password, some("pass"));
    assert_eq!(settings.oauth_access_token, some("oauth"));
    assert_eq!(settings.bearer_access_token, some("bearer"));
    assert_eq!(settings.tls_domain, some("example.com"));
    match settings.store {
        Store::S3(bucket) => {
            assert_eq!(bucket.name, "bucket");
            let credentials = bucket.credentials.unwrap();
            assert_eq!(credentials.access_key_id, "id");
            assert_eq!(credentials.secret_access_key, "secret");
            assert_eq!(bucket.endpoint, some("http://s3"));
            assert!(bucket.allow_http);
        }
        Store::Memory => panic!("memory"),
    }
}

#[test]
fn rest_server_needs_a_catalog() {
    assert!(rest_settings(RestEnvironment { catalog_url: None, ..rest() }).is_none());
}

#[test]
fn rest_server_without_a_whole_key_stores_in_memory() {
    for environment in [
        RestEnvironment { bucket: None, ..rest() },
        RestEnvironment { access_key_id: None, ..rest() },
        RestEnvironment { secret_access_key: None, ..rest() },
    ] {
        let settings = rest_settings(environment).unwrap();
        assert!(matches!(settings.store, Store::Memory));
    }
}

#[test]
fn plain_http_is_allowed_by_one_word() {
    for (word, allowed) in [(some("TRUE"), true), (some("true"), false), (None, false)] {
        match rest_settings(RestEnvironment { allow_http: word, ..rest() }).unwrap().store {
            Store::S3(bucket) => assert_eq!(bucket.allow_http, allowed),
            Store::Memory => panic!("memory"),
        }
    }
}

#[test]
fn password_without_a_user_is_not_used() {
    let settings = rest_settings(RestEnvironment { username: None, ..rest() }).unwrap();
    assert!(settings.basic_auth.is_none());
    let settings = rest_settings(RestEnvironment { password: None, ..rest() }).unwrap();
    assert_eq!(settings.basic_auth.unwrap().password, None);
}

#[test]
fn sql_server_takes_what_is_set() {
    let settings = sql_settings(SqlEnvironment {
        catalog_url: some("postgres://catalog"),
        bucket: some("bucket"),
        tls_domain: some("example.com"),
    });
    let settings = settings.unwrap();
    assert_eq!(settings.catalog_url, "postgres://catalog");
    assert_eq!(settings.tls_domain, some("example.com"));
    match settings.store {
        Store::S3(bucket) => {
            assert_eq!(bucket.name, "bucket");
            assert!(bucket.credentials.is_none());
            assert_eq!(bucket.endpoint, None);
            assert!(!bucket.allow_http);
        }
        Store::Memory => panic!("memory"),
    }
}

#[test]
fn sql_server_without_a_bucket_stores_in_memory() {
    let environment =
        SqlEnvironment { catalog_url: some("sqlite://"), bucket: None, tls_domain: None };
    let settings = sql_settings(environment).unwrap();
    assert!(matches!(settings.store, Store::Memory));
    assert_eq!(settings.tls_domain, None);
}

#[test]
fn sql_server_needs_a_catalog() {
    let environment = SqlEnvironment { catalog_url: None, bucket: some("b"), tls_domain: None };
    assert!(sql_settings(environment).is_none());
}

#[test]
fn sessions_have_defaults_and_views() {
    let settings = session_settings();
    assert!(settings.create_default_catalog_and_schema);
    assert!(settings.information_schema);
}

#[test]
fn schema_and_database_have_defaults() {
    let unset = |_: &str| None;
    assert_eq!(text_of(SessionFunction::CurrentSchema.value(&unset)), "public");
    assert_eq!(text_of(SessionFunction::CurrentDatabase.value(&unset)), "datafusion");
    assert_eq!(text_of(scalar_utf8("x")), "x");
}

#[test]
fn each_session_function_reads_its_own_variable() {
    let read = |variable: &str| match variable {
        "CURRENT_SCHEMA" => some("mine"),
        "CURRENT_DATABASE" => some(""),
        _ => None,
    };
    assert_eq!(text_of(SessionFunction::CurrentSchema.value(&read)), "mine");
    assert_eq!(text_of(SessionFunction::CurrentDatabase.value(&read)), "");
}

#[test]
fn session_functions_are_described() {
    assert_eq!(
        SessionFunction::all(),
        [SessionFunction::CurrentSchema, SessionFunction::CurrentDatabase]
    );
    for (function, name, variable) in [
        (SessionFunction::CurrentSchema, "current_schema", "CURRENT_SCHEMA"),
        (SessionFunction::CurrentDatabase, "current_database", "CURRENT_DATABASE"),
    ] {
        assert_eq!(function.name(), name);
        assert_eq!(function.variable(), variable);
        assert!(function.arguments().is_empty());
        assert_eq!(function.return_type(), ValueType::Utf8);
        assert_eq!(function.steadiness(), Steadiness::Immutable);
        let udf = function.udf(|_: &str| None);
        assert_eq!(udf.name(), name);
        assert_eq!(*udf.signature(), Signature::exact(vec![], Volatility::Immutable));
        assert_eq!(udf.return_type(&[]).unwrap(), DataType::Utf8);
    }
}

#[test]
fn session_function_reads_its_variable_at_each_call() {
    let now = Arc::new(Mutex::new(some("first")));
    let shared = now.clone();
    let udf = SessionFunction::CurrentDatabase.udf(move |_: &str| shared.lock().unwrap().clone());
    assert_eq!(text_of(udf.invoke_no_args(1)), "first");
    *now.lock().unwrap() = some("second");
    assert_eq!(text_of(udf.invoke_no_args(1)), "second");
    *now.lock().unwrap() = None;
    assert_eq!(text_of(udf.invoke(&[])), "datafusion");
}

#[test]
fn function_is_what_it_was_made_of() {
    let fun = |args: &[ColumnarValue]| scalar_utf8(&args.len().to_string());
    let shared = Arc::new(DataType::Utf8);
    let kept = shared.clone();
    let udf = create_no_arg_udf("f", vec![DataType::Int64], shared, Volatility::Stable, fun);
    assert_eq!(udf.name(), "f");
    assert_eq!(*udf.signature(), Signature::exact(vec![DataType::Int64], Volatility::Stable));
    assert_eq!(udf.return_type(&[]).unwrap(), *kept);
    assert_eq!(udf.return_type(&[DataType::Int64]).unwrap(), DataType::Utf8);
    let arg = ColumnarValue::Scalar(ScalarValue::Int64(Some(1)));
    assert_eq!(text_of(udf.invoke(&[arg.clone(), arg])), "2");
    assert_eq!(text_of(udf.invoke_no_args(7)), "0");
}

#[test]
fn function_is_made_of_a_type_that_is_not_shared() {
    let fun = |_: &[ColumnarValue]| Err(DataFusionError::Internal("no".to_string()));
    let data_type = Arc::new(DataType::Boolean);
    let udf = create_no_arg_udf("g", vec![], data_type, Volatility::Immutable, fun);
    assert_eq!(udf.return_type(&[]).unwrap(), DataType::Boolean);
    assert!(udf.invoke_no_args(0).is_err());
    let udf =
        NoArgScalarUDF::new("h".to_string(), vec![], DataType::Date32, Volatility::Volatile, fun);
    assert_eq!(udf.name(), "h");
    assert_eq!(*udf.signature(), Signature::exact(vec![], Volatility::Volatile));
    assert_eq!(udf.return_type(&[]).unwrap(), DataType::Date32);
}

#[test]
fn unsupported_requests_are_named() {
    for (request, message) in [
        (Unsupported::GetFlightInfoStatement, "Implement get_flight_info_statement"),
        (Unsupported::GetFlightInfoSqlInfo, "Implement CommandGetSqlInfo"),
        (Unsupported::DoGetXdbcTypeInfo, "Implement do_get_xdbc_type_info"),
        (Unsupported::DoPutSubstraitPlan, "Implement do_put_prepared_statement_update"),
        (Unsupported::DoActionCancelQuery, "Implement do_action_cancel_query"),
    ] {
        let status = request.refuse();
        assert_eq!(status.code, Code::Unimplemented);
        assert_eq!(status.message, message);
    }
}

#[test]
fn statuses_say_what_where_and_why() {
    let status = Status::located("Unable to parse", "bad byte", "lib.rs:7");
    assert_eq!(status.code, Code::Internal);
    assert_eq!(status.message, "Unable to parse: bad byte at lib.rs:7");
}
