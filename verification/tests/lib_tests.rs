//! Smoke tests that the crate's public items are reachable.

use profesor::{Course, PhysicsWorld, Quiz, QuizEngine, QuizState, TestRunner, VERSION};

#[test]
fn lib_test_version() {
    assert!(!VERSION.is_empty());
}

#[test]
fn test_core_types_accessible() {
    let course = Course::new("test", "Test Course");
    assert_eq!(course.id.as_str(), "test");
}

#[test]
fn test_quiz_engine_accessible() {
    let quiz = Quiz::new("quiz", "Test Quiz");
    let engine = QuizEngine::new(quiz);
    assert!(matches!(engine.state(), QuizState::NotStarted));
}

#[test]
fn test_lab_runner_accessible() {
    let _runner = TestRunner::new();
    // TestRunner is accessible
}

#[test]
fn test_physics_accessible() {
    let world = PhysicsWorld::new();
    assert_eq!(world.body_count(), 0);
}
