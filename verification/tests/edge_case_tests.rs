//! Edge-case tests: engine error paths, saturating and clamped values,
//! and exact report strings.

use profesor::{Answer, Question, QuestionId, Quiz, QuizEngine, QuizError};

fn one_question_quiz() -> Quiz {
    Quiz::new("q", "Quiz").with_question(Question::MultipleChoice {
        id: QuestionId::new("q1"),
        prompt: "Q".into(),
        options: vec!["A".into(), "B".into()],
        correct: 0,
        explanation: "".into(),
        points: 10,
    })
}

#[test]
fn test_start_empty_quiz() {
    let mut engine = QuizEngine::new(Quiz::new("empty", "Empty"));
    assert_eq!(engine.start().err(), Some(QuizError::NoQuestions));
}

#[test]
fn test_current_question_before_start() {
    let engine = QuizEngine::new(one_question_quiz());
    assert_eq!(engine.current_question().err(), Some(QuizError::InvalidState));
}

#[test]
fn test_submit_before_start() {
    let mut engine = QuizEngine::new(one_question_quiz());
    assert_eq!(
        engine.submit_answer(Answer::Choice(0)).err(),
        Some(QuizError::InvalidState)
    );
}

#[test]
fn test_next_question_unanswered() {
    let mut engine = QuizEngine::new(one_question_quiz());
    engine.start().expect("start");
    assert_eq!(
        engine.next_question().err(),
        Some(QuizError::QuestionNotAnswered)
    );
}

#[test]
fn test_next_question_at_end() {
    let mut engine = QuizEngine::new(one_question_quiz());
    engine.start().expect("start");
    engine.submit_answer(Answer::Choice(0)).expect("submit");
    assert_eq!(engine.next_question().err(), Some(QuizError::NoMoreQuestions));
}

#[test]
fn test_previous_question_at_start() {
    let mut engine = QuizEngine::new(one_question_quiz());
    engine.start().expect("start");
    assert_eq!(
        engine.previous_question().err(),
        Some(QuizError::NoPreviousQuestion)
    );
}

#[test]
fn test_finish_before_start() {
    let mut engine = QuizEngine::new(one_question_quiz());
    assert_eq!(engine.finish().err(), Some(QuizError::InvalidState));
}

#[test]
fn test_unanswered_questions_score_zero() {
    let mut engine = QuizEngine::new(one_question_quiz());
    engine.start().expect("start");
    let score = engine.finish().expect("finish");
    assert_eq!(score.points_earned, 0);
    assert_eq!(score.correct_count, 0);
    assert_eq!(score.total_questions, 1);
    assert!(!score.passed);
}

#[test]
fn test_error_messages() {
    assert_eq!(
        QuizError::MaxAttemptsReached.message(),
        "Maximum attempts reached"
    );
    assert_eq!(QuizError::NoQuestions.message(), "Quiz has no questions");
    assert_eq!(
        QuizError::InvalidState.message(),
        "Invalid state for this operation"
    );
    assert_eq!(
        QuizError::QuestionNotAnswered.message(),
        "Current question not answered"
    );
    assert_eq!(QuizError::NoMoreQuestions.message(), "No more questions");
    assert_eq!(
        QuizError::NoPreviousQuestion.message(),
        "No previous question"
    );
}

#[test]
fn test_uppercase_error_is_folded() {
    // The explanation cascade works on the lowercased error text, so an
    // all-caps Rust error is still recognized.
    let explanation = profesor::FeedbackGenerator::explain_error(
        "CANNOT BORROW `X` AS MUTABLE",
        profesor::Language::Rust,
    );
    assert_eq!(explanation.category, profesor::ErrorCategory::BorrowChecker);
}

#[test]
fn test_runner_summary_exact() {
    let results = profesor::TestResults {
        results: vec![],
        all_passed: false,
        passed_count: 7,
        total_count: 9,
    };
    assert_eq!(results.summary(), "7/9 tests passed (77%)");
}

#[test]
fn test_compare_outputs_content_hint() {
    let result = profesor::FeedbackGenerator::compare_outputs("aaa\nbbb", "aaa\nccc");
    assert_eq!(result.difference, profesor::DifferenceType::Content);
    assert_eq!(
        result.hint.as_deref(),
        Some("Line 2 differs: expected 'bbb', got 'ccc'")
    );
}

#[test]
fn test_runner_summary_empty() {
    let results = profesor::TestResults {
        results: vec![],
        all_passed: true,
        passed_count: 0,
        total_count: 0,
    };
    assert_eq!(results.summary(), "0/0 tests passed (0%)");
}

#[test]
fn test_quiz_attempt_score_clamped() {
    let attempt = profesor::QuizAttempt::new(1500, 100, profesor::Timestamp::from_millis(0), false);
    assert_eq!(attempt.score, 1000);
}

#[test]
fn test_add_xp_saturates() {
    let mut progress = profesor::LearnerProgress::new("user");
    let now = profesor::Timestamp::from_millis(1);
    progress.add_xp(u64::MAX, now);
    progress.add_xp(100, now);
    assert_eq!(progress.total_xp, u64::MAX);
}

#[test]
fn test_color_from_hex_repeated_hash() {
    let color = profesor::Color::from_hex("##ff8000");
    assert_eq!(color, profesor::Color::rgb(255, 128, 0));
}
