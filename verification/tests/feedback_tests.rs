//! Tests for the feedback generator.

use profesor::{DifferenceType, ErrorCategory, FeedbackGenerator, Language};

#[test]
fn test_rust_borrow_error() {
    let explanation = FeedbackGenerator::explain_error(
        "cannot borrow `x` as mutable because it is also borrowed as immutable",
        Language::Rust,
    );

    assert_eq!(explanation.category, ErrorCategory::BorrowChecker);
    assert!(explanation.suggestion.contains("clone"));
}

#[test]
fn test_rust_type_mismatch() {
    let explanation =
        FeedbackGenerator::explain_error("expected `i32`, found `&str`", Language::Rust);

    assert_eq!(explanation.category, ErrorCategory::TypeMismatch);
}

#[test]
fn test_rust_not_found() {
    let explanation =
        FeedbackGenerator::explain_error("cannot find value `foo` in this scope", Language::Rust);

    assert_eq!(explanation.category, ErrorCategory::NotFound);
}

#[test]
fn test_rust_overflow() {
    let explanation =
        FeedbackGenerator::explain_error("attempt to add with overflow", Language::Rust);

    assert_eq!(explanation.category, ErrorCategory::RuntimeError);
    assert!(explanation.suggestion.contains("checked"));
}

#[test]
fn test_rust_index_out_of_bounds() {
    let explanation = FeedbackGenerator::explain_error(
        "index out of bounds: the len is 3 but the index is 5",
        Language::Rust,
    );

    assert_eq!(explanation.category, ErrorCategory::RuntimeError);
    assert!(explanation.suggestion.contains(".get()"));
}

#[test]
fn test_rust_unwrap_panic() {
    let explanation = FeedbackGenerator::explain_error(
        "called `Option::unwrap()` on a `None` value",
        Language::Rust,
    );

    assert_eq!(explanation.category, ErrorCategory::RuntimeError);
}

#[test]
fn test_python_indentation() {
    let explanation =
        FeedbackGenerator::explain_error("IndentationError: unexpected indent", Language::Python);

    assert_eq!(explanation.category, ErrorCategory::SyntaxError);
    assert!(explanation.suggestion.contains("4 spaces"));
}

#[test]
fn test_python_name_error() {
    let explanation =
        FeedbackGenerator::explain_error("NameError: name 'foo' is not defined", Language::Python);

    assert_eq!(explanation.category, ErrorCategory::NotFound);
}

#[test]
fn test_python_type_error() {
    let explanation = FeedbackGenerator::explain_error(
        "TypeError: unsupported operand type(s) for +: 'int' and 'str'",
        Language::Python,
    );

    assert_eq!(explanation.category, ErrorCategory::TypeMismatch);
}

#[test]
fn test_python_index_error() {
    let explanation =
        FeedbackGenerator::explain_error("IndexError: list index out of range", Language::Python);

    assert_eq!(explanation.category, ErrorCategory::RuntimeError);
}

#[test]
fn test_python_key_error() {
    let explanation = FeedbackGenerator::explain_error("KeyError: 'missing_key'", Language::Python);

    assert_eq!(explanation.category, ErrorCategory::RuntimeError);
    assert!(explanation.suggestion.contains(".get()"));
}

#[test]
fn test_python_zero_division() {
    let explanation =
        FeedbackGenerator::explain_error("ZeroDivisionError: division by zero", Language::Python);

    assert_eq!(explanation.category, ErrorCategory::RuntimeError);
}

#[test]
fn test_generic_error() {
    let explanation = FeedbackGenerator::explain_error("some unknown error", Language::Rust);

    assert_eq!(explanation.category, ErrorCategory::Unknown);
}

#[test]
fn test_compare_outputs_match() {
    let result = FeedbackGenerator::compare_outputs("hello world", "hello world");

    assert!(result.matches);
    assert_eq!(result.difference, DifferenceType::Identical);
}

#[test]
fn test_compare_outputs_whitespace() {
    let result = FeedbackGenerator::compare_outputs("hello world", "hello  world");

    assert!(!result.matches);
    assert_eq!(result.difference, DifferenceType::Whitespace);
    assert!(result.hint.unwrap().contains("spacing"));
}

#[test]
fn test_compare_outputs_case() {
    let result = FeedbackGenerator::compare_outputs("Hello World", "hello world");

    assert!(!result.matches);
    assert_eq!(result.difference, DifferenceType::Case);
    assert!(result.hint.unwrap().contains("capitalization"));
}

#[test]
fn test_compare_outputs_line_count() {
    let result = FeedbackGenerator::compare_outputs("line1\nline2", "line1");

    assert!(!result.matches);
    assert_eq!(result.difference, DifferenceType::LineCount);
    assert!(result.hint.unwrap().contains("2 lines"));
}

#[test]
fn test_compare_outputs_content() {
    let result = FeedbackGenerator::compare_outputs("hello", "world");

    assert!(!result.matches);
    assert_eq!(result.difference, DifferenceType::Content);
}

#[test]
fn test_compare_outputs_trim() {
    let result = FeedbackGenerator::compare_outputs("  hello  ", "hello");

    assert!(result.matches);
}
