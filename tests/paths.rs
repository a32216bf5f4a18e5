use sandbox_tool::credentials::{credentials_filepath, CredentialError, SANDBOX_CREDENTIALS_DIR};
use sandbox_tool::endpoint::{SandboxEndpoint, DEFAULT_SANDBOX_PORT};
use sandbox_tool::text::{join_path, push_decimal};

#[test]
fn default_endpoint_targets_port_3030() {
    let e = SandboxEndpoint::new();
    assert_eq!(e.port(), DEFAULT_SANDBOX_PORT);
    assert_eq!(e.rpc_url(), "http://localhost:3030");
}

#[test]
fn rebind_redirects_later_clients_only() {
    let mut e = SandboxEndpoint::new();
    let before = e.rpc_url();
    e.set_active_port(3031);
    let after = e.rpc_url();
    assert_eq!(before, "http://localhost:3030");
    assert_eq!(after, "http://localhost:3031");
    assert_ne!(before, after);
}

#[test]
fn rpc_url_of_extreme_ports() {
    assert_eq!(SandboxEndpoint::with_port(0).rpc_url(), "http://localhost:0");
    assert_eq!(SandboxEndpoint::with_port(65535).rpc_url(), "http://localhost:65535");
    assert_eq!(SandboxEndpoint::with_port(10).rpc_url(), "http://localhost:10");
}

#[test]
fn decimal_rendering() {
    let mut s = String::from("n=");
    push_decimal(&mut s, 1234567890);
    assert_eq!(s, "n=1234567890");
    let mut m = String::new();
    push_decimal(&mut m, u64::MAX);
    assert_eq!(m, "18446744073709551615");
}

#[test]
fn join_adds_a_separator_only_when_needed() {
    assert_eq!(join_path("/tmp", "a"), "/tmp/a");
    assert_eq!(join_path("/tmp/", "a"), "/tmp/a");
    assert_eq!(join_path("", "a"), "a");
}

#[test]
fn sandbox_home_and_validator_key() {
    let e = SandboxEndpoint::with_port(3030);
    assert_eq!(e.home_dir_name(), "sandbox-3030");
    assert_eq!(e.home_dir("/tmp"), "/tmp/sandbox-3030");
    assert_eq!(e.home_dir("/tmp/"), "/tmp/sandbox-3030");
    assert_eq!(e.validator_key_path("/tmp"), "/tmp/sandbox-3030/validator_key.json");
}

#[test]
fn credentials_need_a_home_directory() {
    let r = credentials_filepath(None, "alice.test.near");
    assert_eq!(r, Err(CredentialError::HomeDirUnavailable));
    assert_eq!(CredentialError::HomeDirUnavailable.message(), "Could not get HOME_DIR");
}

#[test]
fn credentials_file_under_home() {
    let loc = credentials_filepath(Some("/home/dev"), "alice.test.near").unwrap();
    assert_eq!(loc.dir, "/home/dev/.near-credentials/sandbox/");
    assert_eq!(loc.file, "/home/dev/.near-credentials/sandbox/alice.test.near.json");
    assert_eq!(SANDBOX_CREDENTIALS_DIR, ".near-credentials/sandbox/");
}

#[test]
fn credential_directory_failure_message() {
    let e = CredentialError::DirectoryCreation(String::from("permission denied"));
    assert_eq!(e.message(), "Could not create near credential directory: permission denied");
}
