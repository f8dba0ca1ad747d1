//! Tests for the strongly-typed identifiers.

use profesor::{CourseId, LessonId, ModuleId, QuizId};

#[test]
fn test_course_id_creation() {
    let id = CourseId::new("rust-fundamentals");
    assert_eq!(id.as_str(), "rust-fundamentals");
}

#[test]
fn test_id_from_str() {
    let id: CourseId = "test-course".into();
    assert_eq!(id.as_str(), "test-course");
}

#[test]
fn test_id_equality() {
    let id1 = QuizId::new("quiz-01");
    let id2 = QuizId::new("quiz-01");
    let id3 = QuizId::new("quiz-02");

    assert_eq!(id1, id2);
    assert_ne!(id1, id3);
}

#[test]
fn test_id_display() {
    let id = ModuleId::new("mod-ownership");
    assert_eq!(id.as_str(), "mod-ownership");
}

#[test]
fn test_id_clone() {
    let id1 = LessonId::new("lesson-01");
    let id2 = id1.clone();
    assert_eq!(id1, id2);
}
