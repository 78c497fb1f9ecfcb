use caas_rust_sdk::decimal::decimal_string;
use caas_rust_sdk::CaasRustSdk;

#[test]
fn canonical_headers_include_required_fields() {
    let sdk = CaasRustSdk::new("http://gateway:3000", "key-1", Some("project-1"));
    let headers = sdk.canonical_headers();
    assert_eq!(headers.get("x-api-key").unwrap(), "key-1");
    assert_eq!(headers.get("x-project-id").unwrap(), "project-1");
    assert!(headers.get("x-correlation-id").unwrap().starts_with("sdkrust_"));
}

#[test]
fn new_keeps_fields_verbatim() {
    let sdk = CaasRustSdk::new("http://gateway:3000", "key-1", Some("project-1"));
    assert_eq!(sdk.gateway_base_url, "http://gateway:3000");
    assert_eq!(sdk.api_key, "key-1");
    assert_eq!(sdk.project_id, Some("project-1".to_string()));
    let bare = CaasRustSdk::new("", "", None);
    assert_eq!(bare.gateway_base_url, "");
    assert_eq!(bare.api_key, "");
    assert_eq!(bare.project_id, None);
}

#[test]
fn no_project_id_header_without_project_id() {
    let sdk = CaasRustSdk::new("http://gateway:3000", "key-1", None);
    let headers = sdk.canonical_headers();
    assert!(headers.get("x-project-id").is_none());
    assert_eq!(headers.get("x-api-key").unwrap(), "key-1");
    assert!(headers.get("x-correlation-id").unwrap().starts_with("sdkrust_"));
}

#[test]
fn correlation_suffix_is_a_millisecond_count() {
    let sdk = CaasRustSdk::new("http://gateway:3000", "key-1", None);
    let headers = sdk.canonical_headers();
    let id = headers.get("x-correlation-id").unwrap();
    let suffix = &id["sdkrust_".len()..];
    assert!(!suffix.is_empty());
    assert!(suffix.chars().all(|c| c.is_ascii_digit()));
    let millis: u128 = suffix.parse().unwrap();
    // Any clock of this century reads well past this many milliseconds.
    assert!(millis > 1_500_000_000_000);
}

#[test]
fn successive_calls_do_not_go_back() {
    let sdk = CaasRustSdk::new("http://gateway:3000", "key-1", None);
    let first = sdk.canonical_headers();
    let second = sdk.canonical_headers();
    let read = |h: &caas_rust_sdk::HeaderSet| -> u128 {
        h.get("x-correlation-id").unwrap()["sdkrust_".len()..].parse().unwrap()
    };
    assert!(read(&first) <= read(&second));
}

#[test]
fn headers_at_gives_exact_values() {
    let sdk = CaasRustSdk::new("http://gateway:3000", "key-1", Some("project-1"));
    let headers = sdk.headers_at(1700000000123);
    assert_eq!(headers.get("x-api-key").unwrap(), "key-1");
    assert_eq!(headers.get("x-project-id").unwrap(), "project-1");
    assert_eq!(headers.get("x-correlation-id").unwrap(), "sdkrust_1700000000123");
    assert!(headers.get("x-other").is_none());
    assert!(headers.get("X-API-KEY").is_none());
}

#[test]
fn headers_at_zero_and_largest_time() {
    let sdk = CaasRustSdk::new("", "", None);
    let zero = sdk.headers_at(0);
    assert_eq!(zero.get("x-correlation-id").unwrap(), "sdkrust_0");
    assert_eq!(zero.get("x-api-key").unwrap(), "");
    assert!(zero.get("x-project-id").is_none());
    let max = sdk.headers_at(u128::MAX);
    assert_eq!(
        max.get("x-correlation-id").unwrap(),
        "sdkrust_340282366920938463463374607431768211455"
    );
}

#[test]
fn different_times_give_different_correlation_ids() {
    let sdk = CaasRustSdk::new("http://gateway:3000", "key-1", None);
    let a = sdk.headers_at(1000);
    let b = sdk.headers_at(1001);
    assert_ne!(a.get("x-correlation-id").unwrap(), b.get("x-correlation-id").unwrap());
    let again = sdk.headers_at(1000);
    assert_eq!(a.get("x-correlation-id").unwrap(), again.get("x-correlation-id").unwrap());
}

#[test]
fn empty_project_id_is_still_present() {
    let sdk = CaasRustSdk::new("http://gateway:3000", "key-1", Some(""));
    let headers = sdk.headers_at(5);
    assert_eq!(headers.get("x-project-id").unwrap(), "");
}

#[test]
fn decimal_string_renders_digits() {
    assert_eq!(decimal_string(0), "0");
    assert_eq!(decimal_string(7), "7");
    assert_eq!(decimal_string(10), "10");
    assert_eq!(decimal_string(9050), "9050");
    assert_eq!(decimal_string(u128::MAX), "340282366920938463463374607431768211455");
}
