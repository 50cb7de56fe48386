use nunu_cli::config::Config;
use nunu_cli::error::Error;
use nunu_cli::file_config::FileConfig;

#[test]
fn test_merge_with() {
    let config1 = FileConfig {
        api_token: Some("token1".to_string()),
        project_id: None,
        api_url: Some("url1".to_string()),
    };

    let config2 = FileConfig {
        api_token: Some("token2".to_string()),
        project_id: Some("project2".to_string()),
        api_url: Some("url2".to_string()),
    };

    let merged = config1.merge_with(&config2);

    assert_eq!(merged.api_token, Some("token1".to_string()));
    assert_eq!(merged.project_id, Some("project2".to_string()));
    assert_eq!(merged.api_url, Some("url1".to_string()));
}

#[test]
fn test_merge_with_empty_self() {
    let empty = FileConfig::default();
    let full = FileConfig {
        api_token: Some("t".to_string()),
        project_id: Some("p".to_string()),
        api_url: Some("u".to_string()),
    };
    let merged = empty.merge_with(&full);
    assert_eq!(merged.api_token, Some("t".to_string()));
    assert_eq!(merged.project_id, Some("p".to_string()));
    assert_eq!(merged.api_url, Some("u".to_string()));
}

#[test]
fn test_file_config_default_is_empty() {
    let d = FileConfig::default();
    assert!(d.api_token.is_none());
    assert!(d.project_id.is_none());
    assert!(d.api_url.is_none());
}

#[test]
fn test_config_new_ok() {
    let c = Config::new(
        "tok".to_string(),
        "proj".to_string(),
        "https://example.test/api".to_string(),
    )
    .unwrap();
    assert_eq!(c.token, "tok");
    assert_eq!(c.project_id, "proj");
    assert_eq!(c.api_url, "https://example.test/api");
}

#[test]
fn test_config_new_empty_token() {
    let r = Config::new(String::new(), "proj".to_string(), "u".to_string());
    match r {
        Err(Error::ConfigError(m)) => assert_eq!(m, "API token cannot be empty"),
        _ => panic!("expected a configuration error"),
    }
}

#[test]
fn test_config_new_empty_project() {
    let r = Config::new("tok".to_string(), String::new(), "u".to_string());
    match r {
        Err(Error::ConfigError(m)) => assert_eq!(m, "Project ID cannot be empty"),
        _ => panic!("expected a configuration error"),
    }
}

#[test]
fn test_base_upload_url() {
    let c = Config::new(
        "tok".to_string(),
        "p123".to_string(),
        "https://example.test/api".to_string(),
    )
    .unwrap();
    assert_eq!(
        c.base_upload_url(),
        "https://example.test/api/nexus/projects/p123/builds"
    );
}

#[test]
fn test_error_messages() {
    assert_eq!(
        Error::ApiError("x".to_string()).to_message(),
        "API request failed: x"
    );
    assert_eq!(Error::FileError("x".to_string()).to_message(), "File error: x");
    assert_eq!(Error::HttpError("x".to_string()).to_message(), "HTTP error: x");
    assert_eq!(Error::JsonError("x".to_string()).to_message(), "JSON error: x");
    assert_eq!(
        Error::ConfigError("x".to_string()).to_message(),
        "Invalid configuration: x"
    );
    assert_eq!(
        Error::UploadError("x".to_string()).to_message(),
        "Upload failed: x"
    );
}
