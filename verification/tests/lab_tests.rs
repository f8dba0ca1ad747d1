//! Tests for the lab types.

use profesor::{Difficulty, Hint, Lab, LabStep, Language, StarterFile, StepValidation, TestCase, TestSuite};

#[test]
fn test_lab_creation() {
    let lab = Lab::new("lab-01", "First Lab")
        .with_description("Learn the basics")
        .with_language(Language::Rust)
        .with_difficulty(Difficulty::Beginner)
        .with_estimated_minutes(45);

    assert_eq!(lab.id.as_str(), "lab-01");
    assert_eq!(lab.title, "First Lab");
    assert_eq!(lab.language, Language::Rust);
    assert_eq!(lab.difficulty, Difficulty::Beginner);
    assert_eq!(lab.estimated_minutes, 45);
}

#[test]
fn test_lab_steps() {
    let lab = Lab::new("test", "Test")
        .with_step(LabStep::new(1, "Step 1"))
        .with_step(LabStep::new(2, "Step 2"));

    assert_eq!(lab.step_count(), 2);
}

#[test]
fn test_language_extension() {
    assert_eq!(Language::Rust.extension(), "rs");
    assert_eq!(Language::Python.extension(), "py");
    assert_eq!(Language::JavaScript.extension(), "js");
}

#[test]
fn test_language_name() {
    assert_eq!(Language::Rust.name(), "Rust");
    assert_eq!(Language::TypeScript.name(), "TypeScript");
}

#[test]
fn test_starter_file() {
    let file = StarterFile::new("src/lib.rs", "// starter code");
    assert!(!file.readonly);

    let readonly = StarterFile::readonly("Cargo.toml", "[package]");
    assert!(readonly.readonly);
}

#[test]
fn test_step_validation() {
    let step = LabStep::new(1, "Create function")
        .with_validation(StepValidation::FunctionExists { name: "add".into() });

    assert!(step.validation.is_some());
}

#[test]
fn test_test_suite() {
    let suite = TestSuite::new()
        .with_test(TestCase::new("test1"))
        .with_test(TestCase::new("test2"));

    assert_eq!(suite.test_count(), 2);
}

#[test]
fn test_hint() {
    let hint = Hint::new(1, "Use the + operator");
    assert_eq!(hint.step, 1);
    assert_eq!(hint.text, "Use the + operator");
}

#[test]
fn test_difficulty_label() {
    assert_eq!(Difficulty::Beginner.label(), "Beginner");
    assert_eq!(Difficulty::Expert.label(), "Expert");
}
