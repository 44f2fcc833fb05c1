use tencentcloud_sdk_sms::client_profile::ClientProfile;
use tencentcloud_sdk_sms::credentials::Credential;
use tencentcloud_sdk_sms::http_profile::{content_type, is_get, is_post, HttpProfile};

#[test]
fn credential_keeps_its_parts() {
    let credential = Credential::new("secretId", "secretKey", None);
    assert_eq!(credential.secret_id, "secretId");
    assert_eq!(credential.secret_key, "secretKey");
    assert_eq!(credential.token, None);
    let with_token = Credential::new("a", "b", Some("token".to_owned()));
    assert_eq!(with_token.secret_id, "a");
    assert_eq!(with_token.secret_key, "b");
    assert_eq!(with_token.token, Some("token".to_owned()));
}

#[test]
fn default_credential_is_empty() {
    let credential = Credential::default();
    assert_eq!(credential.secret_id, "");
    assert_eq!(credential.secret_key, "");
    assert_eq!(credential.token, None);
}

#[test]
fn default_http_profile() {
    let profile = HttpProfile::default();
    assert_eq!(profile.req_method, "POST");
    assert_eq!(profile.req_timeout, 30);
    assert_eq!(profile.scheme, "HTTPS");
    assert_eq!(profile.root_domain, "");
    assert_eq!(profile.end_point, "");
    assert!(profile.is_well_formed());
}

#[test]
fn http_profile_knows_get_and_post_only() {
    let mut profile = HttpProfile::default();
    profile.req_method = "get".to_owned();
    assert!(profile.is_well_formed());
    profile.req_method = "Post".to_owned();
    assert!(profile.is_well_formed());
    profile.req_method = "PUT".to_owned();
    assert!(!profile.is_well_formed());
    profile.req_method = String::new();
    assert!(!profile.is_well_formed());
}

#[test]
fn methods_are_read_in_any_case() {
    assert!(is_get("GET"));
    assert!(is_get("Get"));
    assert!(is_get("get"));
    assert!(!is_get("POST"));
    assert!(!is_get("GETS"));
    assert!(is_post("POST"));
    assert!(is_post("Post"));
    assert!(is_post("post"));
    assert!(!is_post("GET"));
    assert!(!is_post("POS"));
}

#[test]
fn content_type_goes_by_the_method() {
    assert_eq!(content_type("GET"), "application/x-www-form-urlencoded");
    assert_eq!(content_type("Get"), "application/x-www-form-urlencoded");
    assert_eq!(content_type("POST"), "application/json");
    assert_eq!(content_type("post"), "application/json");
    assert_eq!(content_type("PUT"), "application/json");
}

#[test]
fn default_client_profile() {
    let profile = ClientProfile::default();
    assert_eq!(profile.sign_method, "TC3-HMAC-SHA256");
    assert_eq!(profile.language, "zh-CN");
    assert!(profile.disable_region_breaker);
    assert!(!profile.debug);
    assert_eq!(profile.http_profile.req_method, "POST");
    assert_eq!(profile.http_profile.req_timeout, 30);
    assert_eq!(profile.http_profile.scheme, "HTTPS");
}

#[test]
fn set_debug_changes_the_flag_alone() {
    let mut profile = ClientProfile::default();
    profile.language = "en-US".to_owned();
    profile.http_profile.req_timeout = 5;
    let on = profile.set_debug(true);
    assert!(on.debug);
    assert_eq!(on.language, "en-US");
    assert_eq!(on.sign_method, "TC3-HMAC-SHA256");
    assert!(on.disable_region_breaker);
    assert_eq!(on.http_profile.req_timeout, 5);
    assert_eq!(on.http_profile.req_method, "POST");
    let off = on.set_debug(false);
    assert!(!off.debug);
    assert_eq!(off.language, "en-US");
}
