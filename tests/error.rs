use build_server::api::{BinaryData, RpcProxyQuery};
use build_server::config::Config;
use build_server::error::Error;
use build_server::jobs::SubmitError;
use build_server::workspace::InvalidInput;

#[test]
fn errors_map_to_status_codes_and_messages() {
    let e = Error::BadRequest("x".to_string());
    assert_eq!(e.status_code(), 400);
    assert_eq!(e.message(), "Invalid request: x");
    let n = Error::not_built();
    assert_eq!(n.status_code(), 404);
    assert_eq!(n.message(), "Not found: Program is not built");
    let i = Error::Internal("boom".to_string());
    assert_eq!(i.status_code(), 500);
    assert_eq!(i.message(), "Internal error: boom");
}

#[test]
fn refusals_name_what_was_wrong() {
    let p = Error::from_submit_error(SubmitError::InvalidInput(InvalidInput::InvalidPath { path: "/x".to_string() }));
    assert_eq!(p.message(), "Invalid request: Invalid path: /x");
    let t = Error::from_submit_error(SubmitError::InvalidInput(InvalidInput::TooManyFiles { count: 70 }));
    assert_eq!(t.message(), "Invalid request: Exceeded maximum file amount(64)");
    let u = Error::from_submit_error(SubmitError::InvalidJobId { job_id: "nope".to_string() });
    assert_eq!(u.status_code(), 400);
    assert_eq!(u.message(), "Invalid request: Invalid UUID: nope");
}

#[test]
fn config_defaults_and_payload_limit() {
    let c = Config::defaults();
    assert_eq!(c.port, 8080);
    assert_eq!(c.client_url, "http://localhost:3000");
    assert!(!c.verbose);
    assert_eq!(c.payload_limit_bytes(), Some(10 * 1024 * 1024));
    let huge = Config { payload_limit: usize::MAX, ..Config::defaults() };
    assert_eq!(huge.payload_limit_bytes(), None);
}

#[test]
fn binary_data_and_rpc_target() {
    let b = BinaryData(vec![0x7f, b'E', b'L', b'F', 0]);
    assert_eq!(b.content_length(), 5);
    assert!(b.has_elf_magic());
    assert!(!BinaryData(vec![1, 2]).has_elf_magic());
    let q = RpcProxyQuery { target: None };
    assert_eq!(q.target_url("https://rpc.example"), "https://rpc.example");
    let q = RpcProxyQuery { target: Some("http://local:9002".to_string()) };
    assert_eq!(q.target_url("https://rpc.example"), "http://local:9002");
}
