//! Construction-time behaviour: endpoint resolution, addressing style,
//! root normalization, and configuration validation.

use obs_backend::backend::ObsBuilder;
use obs_backend::error::ErrorKind;

fn builder(bucket: &str, endpoint: &str) -> ObsBuilder {
    let mut b = ObsBuilder::new();
    b.bucket(bucket);
    b.endpoint(endpoint);
    b
}

#[test]
fn default_domain_gets_virtual_hosted_addressing() {
    let b = builder("test", "https://obs.cn-north-4.myhuaweicloud.com");
    let backend = b.build().unwrap();
    assert_eq!(backend.core.endpoint, "https://test.obs.cn-north-4.myhuaweicloud.com");
    assert!(backend.core.default_style);
    assert_eq!(backend.core.canonical_resource, "test");
    assert_eq!(backend.core.bucket, "test");
}

#[test]
fn scheme_defaults_to_https() {
    let b = builder("test", "obs.cn-north-4.myhuaweicloud.com");
    let backend = b.build().unwrap();
    assert_eq!(backend.core.endpoint, "https://test.obs.cn-north-4.myhuaweicloud.com");
    assert!(backend.core.default_style);
}

#[test]
fn http_scheme_is_kept() {
    let b = builder("b1", "http://obs.eu-west-101.myhuaweicloud.com");
    let backend = b.build().unwrap();
    assert_eq!(backend.core.endpoint, "http://b1.obs.eu-west-101.myhuaweicloud.com");
}

#[test]
fn custom_domain_is_used_unchanged() {
    let b = builder("test", "https://custom.obs.com");
    let backend = b.build().unwrap();
    assert_eq!(backend.core.endpoint, "https://custom.obs.com");
    assert!(!backend.core.default_style);
    assert_eq!(backend.core.canonical_resource, "custom.obs.com");
}

#[test]
fn missing_bucket_is_config_invalid() {
    let mut b = ObsBuilder::new();
    b.endpoint("https://custom.obs.com");
    let err = b.build().unwrap_err();
    assert_eq!(err.kind(), ErrorKind::ConfigInvalid);
}

#[test]
fn missing_endpoint_is_config_invalid() {
    let mut b = ObsBuilder::new();
    b.bucket("test");
    let err = b.build().unwrap_err();
    assert_eq!(err.kind(), ErrorKind::ConfigInvalid);
}

#[test]
fn unparsable_endpoint_is_config_invalid() {
    let b = builder("test", "ht tp://bad endpoint");
    let err = b.build().unwrap_err();
    assert_eq!(err.kind(), ErrorKind::ConfigInvalid);
}

#[test]
fn root_is_normalized() {
    let mut b = builder("test", "https://custom.obs.com");
    b.root("//a//b/");
    let backend = b.build().unwrap();
    assert_eq!(backend.core.root, b"/a/b".to_vec());
}

#[test]
fn missing_root_is_bare_slash() {
    let b = builder("test", "https://custom.obs.com");
    let backend = b.build().unwrap();
    assert_eq!(backend.core.root, b"/".to_vec());
}

#[test]
fn endpoint_trailing_slashes_are_trimmed() {
    let b = builder("test", "https://custom.obs.com//");
    let backend = b.build().unwrap();
    assert_eq!(backend.core.endpoint, "https://custom.obs.com");
}

#[test]
fn empty_setter_inputs_are_ignored() {
    let mut b = builder("test", "https://custom.obs.com");
    b.bucket("");
    b.endpoint("");
    let backend = b.build().unwrap();
    assert_eq!(backend.core.bucket, "test");
    assert_eq!(backend.core.endpoint, "https://custom.obs.com");
}

#[test]
fn from_map_collects_recognized_keys() {
    let map = vec![
        ("root".to_string(), "/work".to_string()),
        ("bucket".to_string(), "b2".to_string()),
        ("endpoint".to_string(), "https://custom.obs.com".to_string()),
        ("unknown".to_string(), "ignored".to_string()),
        ("access_key_id".to_string(), "SECRET-REDACTED".to_string()),
        ("secret_access_key".to_string(), "SECRET-REDACTED".to_string()),
    ];
    let b = ObsBuilder::from_map(map);
    let backend = b.build().unwrap();
    assert_eq!(backend.core.bucket, "b2");
    assert_eq!(backend.core.root, b"/work".to_vec());
    assert_eq!(backend.core.endpoint, "https://custom.obs.com");
}

#[test]
fn from_map_later_pairs_win() {
    let map = vec![
        ("bucket".to_string(), "first".to_string()),
        ("bucket".to_string(), "second".to_string()),
        ("endpoint".to_string(), "https://custom.obs.com".to_string()),
    ];
    let b = ObsBuilder::from_map(map);
    let backend = b.build().unwrap();
    assert_eq!(backend.core.bucket, "second");
}

#[test]
fn info_reports_the_capability_set() {
    let mut b = builder("test", "https://custom.obs.com");
    b.root("/work");
    let backend = b.build().unwrap();
    let info = backend.info();
    assert_eq!(info.scheme, "obs");
    assert_eq!(info.name, "test");
    assert_eq!(info.root, b"/work".to_vec());
    assert!(info.capabilities.read);
    assert!(info.capabilities.write);
    assert!(info.capabilities.copy);
    assert!(info.capabilities.list);
    assert!(info.capabilities.scan);
    assert!(!info.capabilities.presign);
    assert!(!info.capabilities.blocking);
    assert!(info.read_streamable);
}

#[test]
fn builder_summary_redacts_credentials() {
    let mut b = builder("test", "https://custom.obs.com");
    b.access_key_id("key-id-a");
    b.secret_access_key("key-secret-b");
    let s = b.summary();
    assert!(!s.contains("key-id-a"));
    assert!(!s.contains("key-secret-b"));
    assert_eq!(
        s,
        "Builder { root: , bucket: test, endpoint: https://custom.obs.com, \
         access_key_id: <redacted>, secret_access_key: <redacted> }"
    );
}
