//! Tests for the execution sandbox.

use profesor::{ExecutionResult, Language, Sandbox, SandboxConfig};

#[test]
fn test_sandbox_default_config() {
    let sandbox = Sandbox::new();
    assert_eq!(sandbox.config().timeout_ms, 5000);
    assert_eq!(sandbox.config().memory_limit_bytes, 64 * 1024 * 1024);
}

#[test]
fn test_sandbox_custom_config() {
    let config = SandboxConfig {
        memory_limit_bytes: 32 * 1024 * 1024,
        timeout_ms: 1000,
        max_output_bytes: 512 * 1024,
    };
    let sandbox = Sandbox::with_config(config);
    assert_eq!(sandbox.config().timeout_ms, 1000);
}

#[test]
fn test_empty_code_error() {
    let sandbox = Sandbox::new();
    let result = sandbox.execute("", Language::Rust, "");
    assert!(!result.is_success());
}

#[test]
fn test_execution_result_accessors() {
    let success = ExecutionResult::Success {
        output: "Hello".into(),
        duration_ms: 10,
    };
    assert!(success.is_success());
    assert_eq!(success.output(), Some("Hello"));

    let error = ExecutionResult::Error {
        message: "Failed".into(),
    };
    assert!(!error.is_success());
    assert_eq!(error.error_message(), Some("Failed"));
}

#[test]
fn test_unsupported_language() {
    let sandbox = Sandbox::new();
    let result = sandbox.execute("SELECT 1", Language::Sql, "");
    assert!(!result.is_success());
}
