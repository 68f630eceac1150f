use iceberg_datafusion_arrow_flight::auth::{
    check_decoded, check_handshake, check_pair, find_token,
};
use iceberg_datafusion_arrow_flight::metadata::MetadataValue;
use iceberg_datafusion_arrow_flight::status::{Code, Status};

fn header(text: &str) -> MetadataValue {
    MetadataValue::from_bytes(text.as_bytes().to_vec()).unwrap()
}

fn says(result: Result<(), Status>, code: Code, message: &str) {
    let status = result.unwrap_err();
    assert_eq!(status.code, code);
    assert_eq!(status.message, message);
}

fn ask(authorization: &str) -> Result<(), Status> {
    check_handshake(Some(&header(authorization)), Some("user"), Some("pass"))
}

#[test]
fn right_credentials_are_accepted() {
    // "user:pass"
    assert!(ask("Basic dXNlcjpwYXNz").is_ok());
}

#[test]
fn accented_credentials_are_accepted() {
    // "\u{fc}:\u{e4}" in UTF-8
    let authorization = header("Basic w7w6w6Q");
    assert!(check_handshake(Some(&authorization), Some("\u{fc}"), Some("\u{e4}")).is_ok());
}

#[test]
fn empty_credentials_are_accepted() {
    // ":"
    assert!(check_handshake(Some(&header("Basic Og")), Some(""), Some("")).is_ok());
}

#[test]
fn missing_header_is_refused() {
    says(
        check_handshake(None, Some("user"), Some("pass")),
        Code::InvalidArgument,
        "authorization field not present",
    );
}

#[test]
fn opaque_header_is_refused() {
    let authorization = MetadataValue::from_bytes(vec![b'B', 0xe4]).unwrap();
    says(
        check_handshake(Some(&authorization), Some("user"), Some("pass")),
        Code::InvalidArgument,
        "authorization not parsable",
    );
}

#[test]
fn other_scheme_is_refused() {
    says(ask("Digest abc"), Code::InvalidArgument, "Auth type not implemented: Digest abc");
    says(ask("Basi"), Code::InvalidArgument, "Auth type not implemented: Basi");
    says(
        ask("basic dXNlcjpwYXNz"),
        Code::InvalidArgument,
        "Auth type not implemented: basic dXNlcjpwYXNz",
    );
}

#[test]
fn server_without_user_or_password_refuses() {
    let authorization = header("Basic dXNlcjpwYXNz");
    says(
        check_handshake(Some(&authorization), None, None),
        Code::InvalidArgument,
        "Environment variable USERNAME not set.",
    );
    says(
        check_handshake(Some(&authorization), Some("user"), None),
        Code::InvalidArgument,
        "Environment variable PASSWORD not set.",
    );
}

#[test]
fn scheme_is_checked_before_the_environment() {
    says(
        check_handshake(Some(&header("Digest abc")), None, None),
        Code::InvalidArgument,
        "Auth type not implemented: Digest abc",
    );
}

#[test]
fn padded_credentials_are_refused() {
    // "user:passw" with its padding
    says(
        ask("Basic dXNlcjpwYXNzdw=="),
        Code::InvalidArgument,
        "Failed to convert base64 to bytes: Invalid padding",
    );
}

#[test]
fn credentials_that_are_no_base64_are_refused() {
    says(
        ask("Basic d*Nl"),
        Code::InvalidArgument,
        "Failed to convert base64 to bytes: Invalid symbol 42, offset 1.",
    );
}

#[test]
fn stray_bits_in_the_last_symbol_are_refused() {
    // "Og" is ":", and "Oh" has a bit that belongs to no byte
    let result = check_handshake(Some(&header("Basic Oh")), Some(""), Some(""));
    let status = result.unwrap_err();
    assert_eq!(status.code, Code::InvalidArgument);
    assert!(status.message.starts_with("Failed to convert base64 to bytes: Invalid last symbol"));
}

#[test]
fn credentials_that_are_no_utf8_are_refused() {
    // one byte, 0xff
    says(ask("Basic /w"), Code::InvalidArgument, "Failed to convert auth bytes to utf8.");
}

#[test]
fn credentials_need_exactly_one_colon() {
    // "user"
    says(ask("Basic dXNlcg"), Code::InvalidArgument, "Invalid authorization header");
    // "a:b:c"
    says(ask("Basic YTpiOmM"), Code::InvalidArgument, "Invalid authorization header");
}

#[test]
fn wrong_credentials_are_refused() {
    // "user:word"
    says(ask("Basic dXNlcjp3b3Jk"), Code::Unauthenticated, "Invalid credentials!");
    // "root:pass"
    says(ask("Basic cm9vdDpwYXNz"), Code::Unauthenticated, "Invalid credentials!");
}

#[test]
fn configured_colon_can_not_be_met() {
    // "a:b", where the user name is to be "a:b" and the password empty
    let authorization = header("Basic YTpi");
    says(
        check_handshake(Some(&authorization), Some("a:b"), Some("")),
        Code::Unauthenticated,
        "Invalid credentials!",
    );
}

#[test]
fn decoded_credentials_are_checked() {
    assert!(check_decoded(Ok(b"user:pass".to_vec()), "user", "pass").is_ok());
    says(
        check_decoded(Err("why".to_string()), "user", "pass"),
        Code::InvalidArgument,
        "Failed to convert base64 to bytes: why",
    );
}

#[test]
fn pairs_are_split_at_their_colon() {
    assert!(check_pair("a:", "a", "").is_ok());
    assert!(check_pair(":b", "", "b").is_ok());
    says(check_pair("ab:", "a", "b"), Code::Unauthenticated, "Invalid credentials!");
    says(check_pair("", "", ""), Code::InvalidArgument, "Invalid authorization header");
}

#[test]
fn token_is_found_in_its_header() {
    assert_eq!(find_token(Some(&header("Bearer abc"))).unwrap(), "abc");
    assert_eq!(find_token(Some(&header("Bearer "))).unwrap(), "");
}

#[test]
fn token_header_faults_are_told() {
    let missing = find_token(None).unwrap_err();
    assert_eq!(missing.code, Code::Internal);
    assert_eq!(missing.message, "No authorization header!");
    let opaque = MetadataValue::from_bytes(vec![0x80]).unwrap();
    let opaque = find_token(Some(&opaque)).unwrap_err();
    assert_eq!(opaque.code, Code::Internal);
    assert_eq!(opaque.message, "Error parsing header: failed to convert metadata to a str");
    let other = find_token(Some(&header("Basic abc"))).unwrap_err();
    assert_eq!(other.code, Code::Internal);
    assert_eq!(other.message, "Invalid auth header!");
}

#[test]
fn header_values_hold_no_control_bytes() {
    assert!(MetadataValue::from_bytes(vec![b'a', 10]).is_none());
    assert!(MetadataValue::from_bytes(vec![127]).is_none());
    assert!(MetadataValue::from_bytes(vec![0]).is_none());
    let value = MetadataValue::from_bytes(vec![9, 32, 126, 128, 255]).unwrap();
    assert_eq!(value.as_bytes(), [9, 32, 126, 128, 255]);
    assert_eq!(header("a\tb").to_str().unwrap(), "a\tb");
}
