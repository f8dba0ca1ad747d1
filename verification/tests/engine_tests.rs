//! Tests for the quiz state machine.

use profesor::{Answer, Question, QuestionId, Quiz, QuizEngine, QuizError, QuizState};

fn create_test_quiz() -> Quiz {
    Quiz::new("test-quiz", "Test Quiz")
        .with_question(Question::MultipleChoice {
            id: QuestionId::new("q1"),
            prompt: "What is 2+2?".into(),
            options: vec!["3".into(), "4".into(), "5".into()],
            correct: 1,
            explanation: "2+2=4".into(),
            points: 10,
        })
        .with_question(Question::MultipleChoice {
            id: QuestionId::new("q2"),
            prompt: "What is 3+3?".into(),
            options: vec!["5".into(), "6".into(), "7".into()],
            correct: 1,
            explanation: "3+3=6".into(),
            points: 10,
        })
}

#[test]
fn test_quiz_engine_creation() {
    let quiz = create_test_quiz();
    let engine = QuizEngine::new(quiz);

    assert_eq!(engine.state(), &QuizState::NotStarted);
    assert_eq!(engine.attempt_count(), 0);
}

#[test]
fn engine_test_start_quiz() {
    let quiz = create_test_quiz();
    let mut engine = QuizEngine::new(quiz);

    // Start and extract prompt immediately
    let prompt = engine.start().expect("Should start").prompt().to_string();

    assert!(matches!(engine.state(), QuizState::InProgress { .. }));
    assert_eq!(engine.attempt_count(), 1);
    assert!(prompt.contains("2+2"));
}

#[test]
fn test_submit_correct_answer() {
    let quiz = create_test_quiz();
    let mut engine = QuizEngine::new(quiz);

    engine.start().expect("Should start");
    let feedback = engine
        .submit_answer(Answer::Choice(1))
        .expect("Should submit");

    assert!(feedback.correct);
    assert_eq!(feedback.points_earned, 10);
}

#[test]
fn test_submit_incorrect_answer() {
    let quiz = create_test_quiz();
    let mut engine = QuizEngine::new(quiz);

    engine.start().expect("Should start");
    let feedback = engine
        .submit_answer(Answer::Choice(0))
        .expect("Should submit");

    assert!(!feedback.correct);
    assert_eq!(feedback.points_earned, 0);
}

#[test]
fn test_next_question() {
    let quiz = create_test_quiz();
    let mut engine = QuizEngine::new(quiz);

    engine.start().expect("Should start");
    engine
        .submit_answer(Answer::Choice(1))
        .expect("Should submit");
    let next = engine.next_question().expect("Should advance");

    assert!(next.prompt().contains("3+3"));
}

#[test]
fn test_finish_quiz() {
    let quiz = create_test_quiz();
    let mut engine = QuizEngine::new(quiz);

    engine.start().expect("Should start");
    engine
        .submit_answer(Answer::Choice(1))
        .expect("Should submit");
    engine.next_question().expect("Should advance");
    engine
        .submit_answer(Answer::Choice(1))
        .expect("Should submit");

    let score = engine.finish().expect("Should finish");
    assert!(score.passed);
    assert_eq!(score.correct_count, 2);
}

#[test]
fn test_max_attempts() {
    let quiz = Quiz::new("test", "Test")
        .with_max_attempts(1)
        .with_question(Question::MultipleChoice {
            id: "q1".into(),
            prompt: "Q".into(),
            options: vec!["A".into()],
            correct: 0,
            explanation: "".into(),
            points: 10,
        });

    let mut engine = QuizEngine::new(quiz);

    engine.start().expect("First attempt should work");
    engine.submit_answer(Answer::Choice(0)).expect("Submit");
    engine.finish().expect("Finish");

    let result = engine.start();
    assert_eq!(result, Err(QuizError::MaxAttemptsReached));
}

#[test]
fn test_progress() {
    let quiz = create_test_quiz();
    let mut engine = QuizEngine::new(quiz);

    assert_eq!(engine.progress(), 0);

    engine.start().expect("Start");
    assert_eq!(engine.progress(), 0);

    engine.submit_answer(Answer::Choice(1)).expect("Submit");
    assert_eq!(engine.progress(), 500);
}
