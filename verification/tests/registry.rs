use cargo_odeps::dep::DepKrate;
use cargo_odeps::registry::{
    latest_version, user_agent, version_from, versions_url, RegistryError, ZERO_RUN_LIMIT,
};

#[test]
fn latest_version_is_the_first_entry() {
    let body = "{\"versions\":[{\"id\":3,\"num\":\"1.3.0\"},{\"id\":2,\"num\":\"1.2.0\"}]}";
    assert_eq!(latest_version(body), Ok("1.3.0".to_string()));
}

#[test]
fn body_that_is_no_document_is_malformed() {
    assert_eq!(latest_version("not json"), Err(RegistryError::Malformed));
    assert_eq!(latest_version(""), Err(RegistryError::Malformed));
    assert_eq!(latest_version("{\"versions\":["), Err(RegistryError::Malformed));
}

#[test]
fn document_without_version_field_has_no_version() {
    assert_eq!(latest_version("{}"), Err(RegistryError::MissingVersion));
    assert_eq!(latest_version("{\"versions\":[]}"), Err(RegistryError::MissingVersion));
    assert_eq!(latest_version("{\"versions\":[{\"id\":1}]}"), Err(RegistryError::MissingVersion));
    assert_eq!(latest_version("{\"versions\":[{\"num\":null}]}"), Err(RegistryError::MissingVersion));
    assert_eq!(latest_version("{\"errors\":[{\"detail\":\"Not Found\"}]}"), Err(RegistryError::MissingVersion));
    assert_eq!(latest_version("[1,2]"), Err(RegistryError::MissingVersion));
}

#[test]
fn what_was_found_decides_the_answer() {
    assert_eq!(version_from(Ok(Some("1.0.0".to_string()))), Ok("1.0.0".to_string()));
    assert_eq!(version_from(Ok(None)), Err(RegistryError::MissingVersion));
    assert_eq!(version_from(Err(json::Error::UnexpectedEndOfJson)), Err(RegistryError::Malformed));
}

#[test]
fn failed_request_is_a_network_error() {
    let dep = DepKrate::new("qux".to_string(), "1.0.0".to_string(), None).unwrap();
    assert_eq!(dep.get_latest_version(None), Err(RegistryError::Network));
    assert_eq!(
        dep.get_latest_version(Some("{\"versions\":[{\"num\":\"0.4.1\"}]}")),
        Ok("0.4.1".to_string())
    );
    assert_eq!(dep.get_latest_version(Some("oops")), Err(RegistryError::Malformed));
}

#[test]
fn url_holds_the_package_name() {
    assert_eq!(versions_url("serde"), "https://crates.io/api/v1/crates/serde/versions");
    let dep = DepKrate::new("qux".to_string(), "1.0.0".to_string(), None).unwrap();
    assert_eq!(dep.versions_url(), "https://crates.io/api/v1/crates/qux/versions");
}

#[test]
fn user_agent_names_tool_version_and_homepage() {
    assert_eq!(
        user_agent("cargo-odeps", "0.1.0", "https://example.org/odeps"),
        "cargo-odeps/0.1.0 (https://example.org/odeps)"
    );
    assert_eq!(user_agent("", "", ""), "/ ()");
}

fn answer_with(extra: &str) -> String {
    format!("{{\"versions\":[{{\"num\":\"1.0.0\"}}],\"extra\":{}}}", extra)
}

#[test]
fn answer_with_too_many_zeros_in_a_row_is_malformed() {
    let fraction = format!("0.{}", "0".repeat(40_000));
    assert_eq!(latest_version(&answer_with(&fraction)), Err(RegistryError::Malformed));
    let over = format!("\"{}\"", "0".repeat(ZERO_RUN_LIMIT + 1));
    assert_eq!(latest_version(&answer_with(&over)), Err(RegistryError::Malformed));
    let small = format!("0.{}1", "0".repeat(ZERO_RUN_LIMIT + 1));
    assert_eq!(latest_version(&answer_with(&small)), Err(RegistryError::Malformed));
}

#[test]
fn answer_with_zeros_up_to_the_limit_is_read() {
    let text = format!("\"{}\"", "0".repeat(ZERO_RUN_LIMIT));
    assert_eq!(latest_version(&answer_with(&text)), Ok("1.0.0".to_string()));
    let fraction = format!("0.{}", "0".repeat(ZERO_RUN_LIMIT));
    assert_eq!(latest_version(&answer_with(&fraction)), Ok("1.0.0".to_string()));
    let digits = format!("0.{}12345678901234567890123456789", "0".repeat(ZERO_RUN_LIMIT));
    assert_eq!(latest_version(&answer_with(&digits)), Ok("1.0.0".to_string()));
    let nines = format!("0.{}99999999999999999999999", "0".repeat(ZERO_RUN_LIMIT));
    assert_eq!(latest_version(&answer_with(&nines)), Ok("1.0.0".to_string()));
    let ones = format!("-0.{}10000000000000000000000", "0".repeat(ZERO_RUN_LIMIT));
    assert_eq!(latest_version(&answer_with(&ones)), Ok("1.0.0".to_string()));
}

#[test]
fn long_answer_without_long_zero_runs_is_read() {
    let mut entries = String::new();
    for patch in 0..4000 {
        entries.push_str(&format!(",{{\"num\":\"0.9.{}\",\"downloads\":100200300}}", patch));
    }
    let body = format!("{{\"versions\":[{{\"num\":\"1.0.0\"}}{}]}}", entries);
    assert!(body.len() > 100_000);
    assert_eq!(latest_version(&body), Ok("1.0.0".to_string()));
}
