use datafusion::prelude::SessionContext;
use iceberg_datafusion_arrow_flight::metadata::MetadataValue;
use iceberg_datafusion_arrow_flight::service::{
    handshake_reply, ContextFault, FlightSqlServiceImpl, HandshakeReply,
};
use iceberg_datafusion_arrow_flight::status::{Code, Status};
use iceberg_datafusion_arrow_flight::udf::SessionFunction;
use std::sync::{Arc, Mutex};

fn header(text: &str) -> MetadataValue {
    MetadataValue::from_bytes(text.as_bytes().to_vec()).unwrap()
}

fn context() -> Arc<SessionContext> {
    Arc::new(SessionContext::new())
}

fn ignore(_: &SessionContext, _: SessionFunction) {}

fn shake(
    service: &mut FlightSqlServiceImpl,
    context: Result<Arc<SessionContext>, ContextFault>,
) -> Result<HandshakeReply, Status> {
    // "user:pass"
    let authorization = header("Basic dXNlcjpwYXNz");
    service.do_handshake(Some(&authorization), Some("user"), Some("pass"), context, &ignore)
}

fn fails<T>(result: Result<T, Status>, code: Code, message: &str) {
    let status = result.err().unwrap();
    assert_eq!(status.code, code);
    assert_eq!(status.message, message);
}

#[test]
fn handshake_hands_out_a_token() {
    let mut service = FlightSqlServiceImpl::new();
    let reply = shake(&mut service, Ok(context())).ok().unwrap();
    assert_eq!(reply.protocol_version, 0);
    let token = String::from_utf8(reply.payload).unwrap();
    let header = reply.authorization.to_str().unwrap();
    assert_eq!(header, format!("Bearer {token}"));
    assert_eq!(token.len(), 36);
    for (i, c) in token.chars().enumerate() {
        match i {
            8 | 13 | 18 | 23 => assert_eq!(c, '-'),
            14 => assert_eq!(c, '4'),
            19 => assert!("89ab".contains(c)),
            _ => assert!("0123456789abcdef".contains(c)),
        }
    }
}

#[test]
fn token_opens_its_own_context() {
    let mut service = FlightSqlServiceImpl::default();
    let (first, second) = (context(), context());
    let a = shake(&mut service, Ok(first.clone())).ok().unwrap();
    let b = shake(&mut service, Ok(second.clone())).ok().unwrap();
    assert_ne!(a.payload, b.payload);
    let found = service.get_ctx(Some(&a.authorization)).ok().unwrap();
    assert!(Arc::ptr_eq(&found, &first));
    let found = service.get_ctx(Some(&b.authorization)).ok().unwrap();
    assert!(Arc::ptr_eq(&found, &second));
}

#[test]
fn unknown_token_opens_nothing() {
    let mut service = FlightSqlServiceImpl::new();
    shake(&mut service, Ok(context())).ok().unwrap();
    fails(
        service.get_ctx(Some(&header("Bearer nobody"))),
        Code::Internal,
        "Context handle not found: nobody",
    );
}

#[test]
fn requests_need_a_token() {
    let service = FlightSqlServiceImpl::new();
    fails(service.get_ctx(None), Code::Internal, "No authorization header!");
    fails(service.get_ctx(Some(&header("Basic abc"))), Code::Internal, "Invalid auth header!");
}

#[test]
fn handshake_refuses_wrong_credentials_first() {
    let mut service = FlightSqlServiceImpl::new();
    // "user:word"
    let authorization = header("Basic dXNlcjp3b3Jk");
    let fault = Err(ContextFault::Config("broken".to_string()));
    fails(
        service.do_handshake(Some(&authorization), Some("user"), Some("pass"), fault, &ignore),
        Code::Unauthenticated,
        "Invalid credentials!",
    );
}

#[test]
fn faults_of_a_context_are_told() {
    let mut service = FlightSqlServiceImpl::new();
    fails(
        shake(&mut service, Err(ContextFault::Config("no such option".to_string()))),
        Code::Internal,
        "Error building plan: no such option",
    );
    fails(
        shake(&mut service, Err(ContextFault::Catalogs("no answer".to_string()))),
        Code::Internal,
        "Error creating catalogs: no answer",
    );
}

#[test]
fn created_context_is_kept_under_its_token() {
    let mut service = FlightSqlServiceImpl::new();
    let made = context();
    let token = service.create_ctx(Ok(made.clone()), &ignore).unwrap();
    let found = service.get_ctx(Some(&header(&format!("Bearer {token}")))).ok().unwrap();
    assert!(Arc::ptr_eq(&found, &made));
}

#[test]
fn nothing_is_found_in_a_new_server() {
    let service = FlightSqlServiceImpl::new();
    fails(service.get_plan("x"), Code::Internal, "Plan handle not found: x");
    fails(service.get_result("x"), Code::Internal, "Request handle not found: x");
}

#[test]
fn nothing_can_be_removed_twice() {
    let mut service = FlightSqlServiceImpl::new();
    assert!(service.remove_plan("x").is_ok());
    assert!(service.remove_result("x").is_ok());
    assert!(service.remove_plan("x").is_ok());
}

#[test]
fn token_stands_in_message_and_header() {
    let reply = handshake_reply("abc").ok().unwrap();
    assert_eq!(reply.protocol_version, 0);
    assert_eq!(reply.payload, b"abc");
    assert_eq!(reply.authorization.as_bytes(), b"Bearer abc");
    fails(handshake_reply("a\nb"), Code::InvalidArgument, "authorization not parsable");
}

#[test]
fn functions_are_registered_in_the_context_that_is_kept() {
    let mut service = FlightSqlServiceImpl::new();
    let made = context();
    let seen = Mutex::new(vec![]);
    let register = |context: &SessionContext, function: SessionFunction| {
        assert!(std::ptr::eq(context, &*made));
        seen.lock().unwrap().push(function);
    };
    assert!(service.create_ctx(Ok(made.clone()), &register).is_ok());
    assert_eq!(
        *seen.lock().unwrap(),
        [SessionFunction::CurrentSchema, SessionFunction::CurrentDatabase]
    );
    let fault = Err(ContextFault::Config("broken".to_string()));
    assert!(service.create_ctx(fault, &register).is_err());
    assert_eq!(seen.lock().unwrap().len(), 2);
}
