//! Code execution sandbox.
//!
//! Provides sandboxed code execution with resource limits.  Actual
//! interpretation is delegated to the host runtime; the library's own
//! execution paths are placeholders that accept non-empty programs.

use vstd::prelude::*;

use vstd::string::StringExecFns;

use crate::lab::Language;

verus! {

/// Configuration for the sandbox.
#[derive(Debug, Clone)]
pub struct SandboxConfig {
    /// Maximum memory in bytes
    pub memory_limit_bytes: usize,
    /// Execution timeout in milliseconds
    pub timeout_ms: u32,
    /// Maximum output size in bytes
    pub max_output_bytes: usize,
}

impl Default for SandboxConfig {
    /// The default limits: 64 MB of memory, five seconds, 1 MB of output.
    fn default() -> (r: Self)
        ensures
            r.memory_limit_bytes == 67108864,
            r.timeout_ms == 5000,
            r.max_output_bytes == 1048576,
    {
        SandboxConfig {
            memory_limit_bytes: 67108864,
            timeout_ms: 5000,
            max_output_bytes: 1048576,
        }
    }
}

/// Whether the sandbox has an interpreter for the language.
pub open spec fn language_supported(language: Language) -> bool {
    language == Language::Rust || language == Language::Python || language
        == Language::JavaScript
}

/// Code execution sandbox.
#[derive(Debug, Clone)]
pub struct Sandbox {
    /// Resource limits for execution
    pub config: SandboxConfig,
}

impl Sandbox {
    /// Create a new sandbox with default configuration.
    pub fn new() -> (r: Self)
        ensures
            r.config.memory_limit_bytes == 67108864,
            r.config.timeout_ms == 5000,
            r.config.max_output_bytes == 1048576,
    {
        Sandbox {
            config: SandboxConfig {
                memory_limit_bytes: 67108864,
                timeout_ms: 5000,
                max_output_bytes: 1048576,
            },
        }
    }

    /// Create a sandbox with custom configuration.
    pub fn with_config(config: SandboxConfig) -> (r: Self)
        ensures
            r.config == config,
    {
        Sandbox { config }
    }

    /// Get the sandbox configuration.
    pub fn config(&self) -> (r: &SandboxConfig)
        ensures
            r == &self.config,
    {
        &self.config
    }

    /// Execute code in the sandbox.
    ///
    /// A supported language with non-empty code reports success with empty
    /// output; empty code and unsupported languages report errors.
    pub fn execute(&self, code: &str, language: Language, input: &str) -> (r: ExecutionResult)
        ensures
            language_supported(language) && code@.len() > 0 ==> (match r {
                ExecutionResult::Success { output, duration_ms } => output@
                    == Seq::<char>::empty() && duration_ms == 0,
                _ => false,
            }),
            language_supported(language) && code@.len() == 0 ==> (match r {
                ExecutionResult::Error { message } => message@ == "Empty code"@,
                _ => false,
            }),
            !language_supported(language) ==> (match r {
                ExecutionResult::Error { message } => message@ == "Language "@ + (match language {
                    Language::Rust => "Rust"@,
                    Language::Python => "Python"@,
                    Language::JavaScript => "JavaScript"@,
                    Language::TypeScript => "TypeScript"@,
                    Language::Sql => "Sql"@,
                    Language::Markdown => "Markdown"@,
                }) + " not yet supported in sandbox"@,
                _ => false,
            }),
    {
        match language {
            Language::Rust => self.execute_rust_subset(code, input),
            Language::Python => self.execute_python_subset(code, input),
            Language::JavaScript => self.execute_js_subset(code, input),
            _ => {
                let mut message = String::new();
                message.append("Language ");
                message.append(language.variant_name());
                message.append(" not yet supported in sandbox");
                ExecutionResult::Error { message }
            },
        }
    }

    /// Execute a subset of Rust (basic expressions).
    ///
    /// Placeholder: a full implementation would parse and evaluate the
    /// code; this one accepts any non-empty program.
    fn execute_rust_subset(&self, code: &str, input: &str) -> (r: ExecutionResult)
        ensures
            code@.len() > 0 ==> (match r {
                ExecutionResult::Success { output, duration_ms } => output@
                    == Seq::<char>::empty() && duration_ms == 0,
                _ => false,
            }),
            code@.len() == 0 ==> (match r {
                ExecutionResult::Error { message } => message@ == "Empty code"@,
                _ => false,
            }),
    {
        let _ = input;
        if code.unicode_len() == 0 {
            return ExecutionResult::Error { message: "Empty code".to_owned() };
        }
        ExecutionResult::Success { output: String::new(), duration_ms: 0 }
    }

    /// Execute a subset of Python.  Placeholder, as for Rust.
    fn execute_python_subset(&self, code: &str, input: &str) -> (r: ExecutionResult)
        ensures
            code@.len() > 0 ==> (match r {
                ExecutionResult::Success { output, duration_ms } => output@
                    == Seq::<char>::empty() && duration_ms == 0,
                _ => false,
            }),
            code@.len() == 0 ==> (match r {
                ExecutionResult::Error { message } => message@ == "Empty code"@,
                _ => false,
            }),
    {
        let _ = input;
        if code.unicode_len() == 0 {
            return ExecutionResult::Error { message: "Empty code".to_owned() };
        }
        ExecutionResult::Success { output: String::new(), duration_ms: 0 }
    }

    /// Execute a subset of JavaScript.  Placeholder, as for Rust.
    fn execute_js_subset(&self, code: &str, input: &str) -> (r: ExecutionResult)
        ensures
            code@.len() > 0 ==> (match r {
                ExecutionResult::Success { output, duration_ms } => output@
                    == Seq::<char>::empty() && duration_ms == 0,
                _ => false,
            }),
            code@.len() == 0 ==> (match r {
                ExecutionResult::Error { message } => message@ == "Empty code"@,
                _ => false,
            }),
    {
        let _ = input;
        if code.unicode_len() == 0 {
            return ExecutionResult::Error { message: "Empty code".to_owned() };
        }
        ExecutionResult::Success { output: String::new(), duration_ms: 0 }
    }
}

impl Default for Sandbox {
    /// The default sandbox uses the default configuration.
    fn default() -> (r: Self)
        ensures
            r.config.memory_limit_bytes == 67108864,
            r.config.timeout_ms == 5000,
            r.config.max_output_bytes == 1048576,
    {
        Sandbox::new()
    }
}

/// Result of code execution.
#[derive(Debug, Clone, PartialEq)]
pub enum ExecutionResult {
    /// Successful execution
    Success {
        /// Program output
        output: String,
        /// Execution time in milliseconds
        duration_ms: u32,
    },
    /// Runtime error during execution
    RuntimeError {
        /// Error message
        error: String,
        /// Line number where error occurred (if known)
        line: Option<u32>,
    },
    /// Execution timed out
    Timeout {
        /// Partial output before timeout
        partial_output: String,
    },
    /// Memory limit exceeded
    MemoryExceeded {
        /// Memory used in bytes
        used_bytes: usize,
    },
    /// General error
    Error {
        /// Error message
        message: String,
    },
}

impl ExecutionResult {
    /// Check if execution was successful.
    pub fn is_success(&self) -> (r: bool)
        ensures
            r == (self is Success),
    {
        matches!(self, ExecutionResult::Success { .. })
    }

    /// Get the output if successful.
    pub fn output(&self) -> (r: Option<&str>)
        ensures
            (match self {
                ExecutionResult::Success { output, .. } => (match r {
                    Some(o) => o@ == output@,
                    None => false,
                }),
                _ => r is None,
            }),
    {
        match self {
            ExecutionResult::Success { output, .. } => Some(output.as_str()),
            _ => None,
        }
    }

    /// Get the error message if failed.
    pub fn error_message(&self) -> (r: Option<&str>)
        ensures
            (match self {
                ExecutionResult::RuntimeError { error, .. } => (match r {
                    Some(m) => m@ == error@,
                    None => false,
                }),
                ExecutionResult::Error { message } => (match r {
                    Some(m) => m@ == message@,
                    None => false,
                }),
                _ => r is None,
            }),
    {
        match self {
            ExecutionResult::RuntimeError { error, .. } => Some(error.as_str()),
            ExecutionResult::Error { message } => Some(message.as_str()),
            _ => None,
        }
    }
}

} // verus!
