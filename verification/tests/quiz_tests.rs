//! Tests for quiz types and scoring.

use profesor::{Blank, Feedback, Question, Quiz, Score};

#[test]
fn test_quiz_creation() {
    let quiz = Quiz::new("quiz-01", "Module 1 Quiz")
        .with_passing_score(800)
        .with_time_limit(1800)
        .with_max_attempts(3);

    assert_eq!(quiz.id.as_str(), "quiz-01");
    assert_eq!(quiz.passing_score, 800);
    assert_eq!(quiz.time_limit_secs, Some(1800));
    assert_eq!(quiz.max_attempts, Some(3));
}

#[test]
fn test_quiz_total_points() {
    let quiz = Quiz::new("test", "Test")
        .with_question(Question::MultipleChoice {
            id: "q1".into(),
            prompt: "Q1".into(),
            options: vec!["A".into(), "B".into()],
            correct: 0,
            explanation: "".into(),
            points: 10,
        })
        .with_question(Question::MultipleChoice {
            id: "q2".into(),
            prompt: "Q2".into(),
            options: vec!["A".into(), "B".into()],
            correct: 1,
            explanation: "".into(),
            points: 20,
        });

    assert_eq!(quiz.total_points(), 30);
    assert_eq!(quiz.question_count(), 2);
}

#[test]
fn test_question_points_accessor() {
    let q = Question::MultipleChoice {
        id: "q1".into(),
        prompt: "Test".into(),
        options: vec![],
        correct: 0,
        explanation: "".into(),
        points: 15,
    };
    assert_eq!(q.points(), 15);
}

#[test]
fn test_blank_acceptable_answers() {
    let blank = Blank::new("blank1")
        .with_answer("a + b")
        .with_answer("return a + b;");

    assert!(blank.is_acceptable("a + b"));
    assert!(blank.is_acceptable("return a + b;"));
    assert!(!blank.is_acceptable("a - b"));
}

#[test]
fn test_score_calculation() {
    let score = Score::calculate(80, 100, 700, 8, 10);

    assert_eq!(score.points_earned, 80);
    assert_eq!(score.points_possible, 100);
    assert_eq!(score.permille, 800);
    assert!(score.passed);
}

#[test]
fn test_score_failing() {
    let score = Score::calculate(50, 100, 700, 5, 10);
    assert!(!score.passed);
}

#[test]
fn test_feedback_correct() {
    let fb = Feedback::correct("Great job!", 10);
    assert!(fb.correct);
    assert_eq!(fb.points_earned, 10);
}

#[test]
fn test_feedback_incorrect() {
    let fb = Feedback::incorrect("Try again");
    assert!(!fb.correct);
    assert_eq!(fb.points_earned, 0);
}

#[test]
fn test_passing_score_clamped() {
    let quiz = Quiz::new("test", "Test").with_passing_score(1500);
    assert_eq!(quiz.passing_score, 1000);

    let quiz2 = Quiz::new("test", "Test").with_passing_score(0);
    assert_eq!(quiz2.passing_score, 0);
}
