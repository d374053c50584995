use payrex::Config;
use payrex::Error;

#[test]
fn test_config_new() {
    let config = Config::new("test_key").unwrap();
    assert_eq!(config.api_key(), "test_key");
    assert_eq!(config.timeout(), 30_000);
    assert_eq!(config.max_retries(), 3);
}

#[test]
fn test_config_new_empty_key() {
    let result = Config::new("");
    assert!(result.is_err());
}

#[test]
fn test_config_builder() {
    let config = Config::builder()
        .api_key("test_key")
        .timeout(60_000)
        .max_retries(5)
        .test_mode(true)
        .build()
        .unwrap();

    assert_eq!(config.api_key(), "test_key");
    assert_eq!(config.timeout(), 60_000);
    assert_eq!(config.max_retries(), 5);
    assert!(config.is_test_mode());
}

#[test]
fn test_config_builder_missing_api_key() {
    let result = Config::builder().timeout(60_000).build();

    assert!(result.is_err());
}

#[test]
fn test_config_defaults() {
    let config = Config::new("sk_test").unwrap();
    assert_eq!(config.api_base_url(), "https://api.payrexhq.com");
    assert_eq!(config.retry_delay(), 500);
    assert_eq!(config.user_agent(), "payrex-rust/0.1.0");
    assert!(!config.is_test_mode());
}

#[test]
fn test_config_builder_empty_key_rejected() {
    let result = Config::builder().api_key("").build();
    match result {
        Err(Error::InvalidApiKey(m)) => assert_eq!(m, "API key cannot be empty"),
        other => panic!("expected an invalid-credential error, got {:?}", other),
    }
}

#[test]
fn test_config_builder_custom_base_url() {
    let config = Config::builder()
        .api_key("k")
        .api_base_url("https://example.test/")
        .retry_delay(100)
        .user_agent("custom-agent")
        .build()
        .unwrap();
    assert_eq!(config.api_base_url(), "https://example.test/");
    assert_eq!(config.retry_delay(), 100);
    assert_eq!(config.user_agent(), "custom-agent");
}
