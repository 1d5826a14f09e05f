use smolpc_codehelper::ollama::OllamaConfig;
use smolpc_codehelper::security::{
    check_file_size, judge_ollama_host, validate_content_size, validate_ollama_url, MAX_FILE_SIZE,
};

#[test]
fn test_valid_content() {
    assert!(validate_content_size("hello world").is_ok());
}

#[test]
fn test_empty_content() {
    assert!(validate_content_size("").is_ok());
}

#[test]
fn test_content_at_limit() {
    let at_limit = "a".repeat(MAX_FILE_SIZE as usize);
    assert!(validate_content_size(&at_limit).is_ok());
}

#[test]
fn test_content_over_limit() {
    let over_limit = "a".repeat((MAX_FILE_SIZE + 1) as usize);
    let result = validate_content_size(&over_limit);
    assert!(result.is_err());
    assert!(result.unwrap_err().contains("too large"));
}

#[test]
fn test_large_content_error_message() {
    let large = "x".repeat(20 * 1024 * 1024);
    let result = validate_content_size(&large);
    assert!(result.is_err());
    let err_msg = result.unwrap_err();
    assert!(err_msg.contains("MB"));
    assert!(err_msg.contains("max"));
}

#[test]
fn content_over_limit_message_is_exact() {
    let large = "x".repeat(20 * 1024 * 1024);
    assert_eq!(
        validate_content_size(&large).unwrap_err(),
        "Content too large: 20.00 MB (max 10 MB)"
    );
}

#[test]
fn file_size_within_limit_is_accepted() {
    assert!(check_file_size(13).is_ok());
    assert!(check_file_size(MAX_FILE_SIZE).is_ok());
}

#[test]
fn file_size_over_limit_reports_megabytes() {
    let err = check_file_size(15 * 1024 * 1024).unwrap_err();
    assert!(err.contains("15.00 MB") || err.contains("15 MB"));
    assert!(err.contains("max"));
    assert!(err.contains("10 MB"));
    assert_eq!(err, "File too large: 15.00 MB (max 10 MB)");
}

#[test]
fn file_size_rounds_to_hundredths() {
    // 10 MiB + 1024 bytes is 10.0009765625 MiB.
    assert_eq!(
        check_file_size(MAX_FILE_SIZE + 1024).unwrap_err(),
        "File too large: 10.00 MB (max 10 MB)"
    );
    // 12944912 bytes are 12.3452 MiB.
    let size = 12 * 1048576 + 362000;
    assert_eq!(
        check_file_size(size).unwrap_err(),
        "File too large: 12.35 MB (max 10 MB)"
    );
}

#[test]
fn local_model_server_addresses_are_accepted() {
    assert_eq!(validate_ollama_url("http://localhost:11434"), Ok("http://localhost:11434".to_string()));
    assert_eq!(validate_ollama_url("http://127.0.0.1:8080/api"), Ok("http://127.0.0.1:8080/api".to_string()));
}

#[test]
fn remote_model_server_address_is_refused() {
    let err = validate_ollama_url("http://evil.example.com:11434").unwrap_err();
    assert!(err.starts_with("Security violation: Ollama must run on localhost. Found hostname: 'evil.example.com'"));
    // A host that merely starts like localhost is not localhost.
    assert!(validate_ollama_url("http://localhost.evil.com").is_err());
}

#[test]
fn malformed_or_hostless_addresses_are_refused() {
    assert!(validate_ollama_url("not a url").unwrap_err().starts_with("Invalid Ollama URL format: "));
    assert_eq!(
        validate_ollama_url("unix:/run/ollama.sock").unwrap_err(),
        "Ollama URL must have a hostname"
    );
    assert_eq!(
        judge_ollama_host("x", Err("relative URL without a base".to_string())).unwrap_err(),
        "Invalid Ollama URL format: relative URL without a base"
    );
    assert_eq!(judge_ollama_host("http://[::1]:1", Ok(Some("::1".to_string()))), Ok("http://[::1]:1".to_string()));
}

#[test]
fn config_falls_back_to_the_default_address() {
    assert_eq!(OllamaConfig::from_setting(None).base_url(), "http://localhost:11434");
    assert_eq!(
        OllamaConfig::from_setting(Some("http://example.com".to_string())).base_url(),
        "http://localhost:11434"
    );
    assert_eq!(
        OllamaConfig::from_setting(Some("http://127.0.0.1:9".to_string())).base_url(),
        "http://127.0.0.1:9"
    );
}
