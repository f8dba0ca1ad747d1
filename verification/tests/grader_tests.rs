//! Tests for the auto-grader.

use profesor::{Answer, Blank, Feedback, Grader, Question, QuestionId, Quiz};

#[test]
fn test_grade_multiple_choice_correct() {
    let question = Question::MultipleChoice {
        id: QuestionId::new("q1"),
        prompt: "Test".into(),
        options: vec!["A".into(), "B".into(), "C".into()],
        correct: 1,
        explanation: "B is correct".into(),
        points: 10,
    };

    let feedback = Grader::grade_answer(&question, &Answer::Choice(1));
    assert!(feedback.correct);
    assert_eq!(feedback.points_earned, 10);
}

#[test]
fn test_grade_multiple_choice_incorrect() {
    let question = Question::MultipleChoice {
        id: QuestionId::new("q1"),
        prompt: "Test".into(),
        options: vec!["A".into(), "B".into()],
        correct: 0,
        explanation: "A is correct".into(),
        points: 10,
    };

    let feedback = Grader::grade_answer(&question, &Answer::Choice(1));
    assert!(!feedback.correct);
    assert_eq!(feedback.points_earned, 0);
}

#[test]
fn test_grade_multiple_select() {
    let question = Question::MultipleSelect {
        id: QuestionId::new("q1"),
        prompt: "Select all".into(),
        options: vec!["A".into(), "B".into(), "C".into()],
        correct: vec![0, 2],
        explanation: "A and C".into(),
        points: 20,
    };

    // Correct (order doesn't matter)
    let feedback = Grader::grade_answer(&question, &Answer::MultiChoice(vec![2, 0]));
    assert!(feedback.correct);

    // Incorrect
    let feedback = Grader::grade_answer(&question, &Answer::MultiChoice(vec![0, 1]));
    assert!(!feedback.correct);
}

#[test]
fn test_grade_ordering() {
    let question = Question::Ordering {
        id: QuestionId::new("q1"),
        prompt: "Order these".into(),
        items: vec!["First".into(), "Second".into(), "Third".into()],
        correct_order: vec![0, 1, 2],
        explanation: "Correct order".into(),
        points: 15,
    };

    let feedback = Grader::grade_answer(&question, &Answer::Order(vec![0, 1, 2]));
    assert!(feedback.correct);

    let feedback = Grader::grade_answer(&question, &Answer::Order(vec![2, 1, 0]));
    assert!(!feedback.correct);
}

#[test]
fn test_grade_matching() {
    let question = Question::Matching {
        id: QuestionId::new("q1"),
        prompt: "Match".into(),
        left: vec!["A".into(), "B".into()],
        right: vec!["1".into(), "2".into()],
        correct_pairs: vec![(0, 1), (1, 0)],
        points: 20,
    };

    let feedback = Grader::grade_answer(&question, &Answer::Pairs(vec![(1, 0), (0, 1)]));
    assert!(feedback.correct);
}

#[test]
fn test_grade_code_completion() {
    let question = Question::CodeCompletion {
        id: QuestionId::new("q1"),
        prompt: "Fill in".into(),
        code_template: "fn add(a: i32, b: i32) -> i32 { {{blank1}} }".into(),
        blanks: vec![Blank::new("blank1")
            .with_answer("a + b")
            .with_answer("return a + b;")],
        test_cases: vec![],
        points: 25,
    };

    let feedback = Grader::grade_answer(
        &question,
        &Answer::Blanks(vec![("blank1".into(), "a + b".into())]),
    );
    assert!(feedback.correct);

    let feedback = Grader::grade_answer(
        &question,
        &Answer::Blanks(vec![("blank1".into(), "a - b".into())]),
    );
    assert!(!feedback.correct);
}

#[test]
fn test_calculate_score_passing() {
    let quiz = Quiz::new("test", "Test")
        .with_passing_score(700)
        .with_question(Question::MultipleChoice {
            id: "q1".into(),
            prompt: "Q1".into(),
            options: vec!["A".into()],
            correct: 0,
            explanation: "".into(),
            points: 10,
        })
        .with_question(Question::MultipleChoice {
            id: "q2".into(),
            prompt: "Q2".into(),
            options: vec!["A".into()],
            correct: 0,
            explanation: "".into(),
            points: 10,
        });

    let feedback = vec![Feedback::correct("", 10), Feedback::correct("", 10)];

    let score = Grader::calculate_score(&quiz, &feedback);
    assert!(score.passed);
    assert_eq!(score.points_earned, 20);
    assert_eq!(score.correct_count, 2);
}

#[test]
fn test_calculate_score_failing() {
    let quiz = Quiz::new("test", "Test")
        .with_passing_score(700)
        .with_question(Question::MultipleChoice {
            id: "q1".into(),
            prompt: "Q1".into(),
            options: vec!["A".into()],
            correct: 0,
            explanation: "".into(),
            points: 10,
        })
        .with_question(Question::MultipleChoice {
            id: "q2".into(),
            prompt: "Q2".into(),
            options: vec!["A".into()],
            correct: 0,
            explanation: "".into(),
            points: 10,
        });

    let feedback = vec![Feedback::correct("", 10), Feedback::incorrect("")];

    let score = Grader::calculate_score(&quiz, &feedback);
    assert!(!score.passed);
    assert_eq!(score.points_earned, 10);
}

#[test]
fn test_type_mismatch() {
    let question = Question::MultipleChoice {
        id: "q1".into(),
        prompt: "Q".into(),
        options: vec!["A".into()],
        correct: 0,
        explanation: "".into(),
        points: 10,
    };

    // Wrong answer type
    let feedback = Grader::grade_answer(&question, &Answer::Code("code".into()));
    assert!(!feedback.correct);
}
