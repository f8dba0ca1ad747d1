//! Quiz types and structures.
//!
//! Defines quizzes, questions, and scoring for assessments.  Scores are
//! held as exact per-mille values (0 ..= 1000) rather than fractions, so
//! every comparison against a passing threshold is exact.

use vstd::prelude::*;

use crate::ids::{QuestionId, QuizId};
use crate::lab::Language;

verus! {

/// A quiz with multiple questions.
#[derive(Debug, Clone, PartialEq)]
pub struct Quiz {
    /// Unique identifier
    pub id: QuizId,
    /// Human-readable title
    pub title: String,
    /// List of questions
    pub questions: Vec<Question>,
    /// Optional time limit in seconds
    pub time_limit_secs: Option<u32>,
    /// Minimum score to pass, in per-mille (0 ..= 1000)
    pub passing_score: u32,
    /// Whether to shuffle question order
    pub shuffle: bool,
    /// Maximum number of attempts allowed
    pub max_attempts: Option<u32>,
}

/// Sum of the point values of a sequence of questions.
pub open spec fn sum_points(qs: Seq<Question>) -> int
    decreases qs.len(),
{
    if qs.len() == 0 {
        0
    } else {
        sum_points(qs.drop_last()) + qs.last().spec_points()
    }
}

impl Quiz {
    /// Create a new quiz.
    pub fn new(id: &str, title: &str) -> (r: Self)
        ensures
            r.id@ == id@,
            r.title@ == title@,
            r.questions@ == Seq::<Question>::empty(),
            r.time_limit_secs is None,
            r.passing_score == 700,
            r.shuffle == false,
            r.max_attempts is None,
    {
        Quiz {
            id: QuizId::new(id),
            title: title.to_owned(),
            questions: Vec::new(),
            time_limit_secs: None,
            passing_score: 700,
            shuffle: false,
            max_attempts: None,
        }
    }

    /// Add a question to the quiz.
    pub fn with_question(self, question: Question) -> (r: Self)
        ensures
            r == (Quiz { questions: r.questions, ..self }),
            r.questions@ == self.questions@.push(question),
    {
        let mut q = self;
        q.questions.push(question);
        q
    }

    /// Set the time limit in seconds.
    pub fn with_time_limit(self, seconds: u32) -> (r: Self)
        ensures
            r == (Quiz { time_limit_secs: Some(seconds), ..self }),
    {
        Quiz { time_limit_secs: Some(seconds), ..self }
    }

    /// Set the passing score threshold, clamped to 0 ..= 1000 per-mille.
    pub fn with_passing_score(self, score: u32) -> (r: Self)
        ensures
            r == (Quiz { passing_score: r.passing_score, ..self }),
            r.passing_score == if score > 1000 { 1000u32 } else { score },
    {
        let clamped: u32 = if score > 1000 { 1000 } else { score };
        Quiz { passing_score: clamped, ..self }
    }

    /// Enable question shuffling.
    pub fn with_shuffle(self, shuffle: bool) -> (r: Self)
        ensures
            r == (Quiz { shuffle: shuffle, ..self }),
    {
        Quiz { shuffle: shuffle, ..self }
    }

    /// Set the maximum attempts.
    pub fn with_max_attempts(self, attempts: u32) -> (r: Self)
        ensures
            r == (Quiz { max_attempts: Some(attempts), ..self }),
    {
        Quiz { max_attempts: Some(attempts), ..self }
    }

    /// Get the total possible points for the quiz.
    pub fn total_points(&self) -> (r: u32)
        requires
            sum_points(self.questions@) <= u32::MAX,
        ensures
            r == sum_points(self.questions@),
    {
        let mut total: u32 = 0;
        let n = self.questions.len();
        let mut i: usize = 0;
        while i < n
            invariant
                i <= n,
                n == self.questions@.len(),
                total == sum_points(self.questions@.take(i as int)),
                sum_points(self.questions@) <= u32::MAX,
            decreases n - i,
        {
            proof {
                lemma_sum_points_take_step(self.questions@, i as int);
                lemma_sum_points_take_bound(self.questions@, i + 1);
            }
            total = total + self.questions[i].points();
            i = i + 1;
        }
        proof {
            assert(self.questions@.take(n as int) =~= self.questions@);
        }
        total
    }

    /// Get the number of questions.
    pub fn question_count(&self) -> (r: usize)
        ensures
            r == self.questions@.len(),
    {
        self.questions.len()
    }
}

/// Taking one more element adds that element's points to the partial sum.
proof fn lemma_sum_points_take_step(qs: Seq<Question>, i: int)
    requires
        0 <= i < qs.len(),
    ensures
        sum_points(qs.take(i + 1)) == sum_points(qs.take(i)) + qs[i].spec_points(),
{
    assert(qs.take(i + 1).drop_last() =~= qs.take(i));
    assert(qs.take(i + 1).last() == qs[i]);
}

/// A partial sum is bounded by the sum of the whole sequence.
proof fn lemma_sum_points_take_bound(qs: Seq<Question>, i: int)
    requires
        0 <= i <= qs.len(),
    ensures
        sum_points(qs.take(i)) <= sum_points(qs),
    decreases qs.len() - i,
{
    if i < qs.len() {
        lemma_sum_points_take_step(qs, i);
        lemma_sum_points_take_bound(qs, i + 1);
        assert(qs[i].spec_points() >= 0);
    } else {
        assert(qs.take(i) =~= qs);
    }
}

/// Question types supported.
#[derive(Debug, Clone, PartialEq)]
pub enum Question {
    /// Multiple choice (single answer)
    MultipleChoice {
        /// Unique ID
        id: QuestionId,
        /// The question prompt
        prompt: String,
        /// Available options
        options: Vec<String>,
        /// Index of the correct option (0-based)
        correct: usize,
        /// Explanation shown after answering
        explanation: String,
        /// Points for correct answer
        points: u32,
    },
    /// Multiple select (multiple correct answers)
    MultipleSelect {
        /// Unique ID
        id: QuestionId,
        /// The question prompt
        prompt: String,
        /// Available options
        options: Vec<String>,
        /// Indices of correct options
        correct: Vec<usize>,
        /// Explanation shown after answering
        explanation: String,
        /// Points for correct answer
        points: u32,
    },
    /// Code completion (fill in the blank)
    CodeCompletion {
        /// Unique ID
        id: QuestionId,
        /// The question prompt
        prompt: String,
        /// Code template with blanks
        code_template: String,
        /// Blank definitions
        blanks: Vec<Blank>,
        /// Test cases to validate
        test_cases: Vec<TestCase>,
        /// Points for correct answer
        points: u32,
    },
    /// Drag and drop ordering
    Ordering {
        /// Unique ID
        id: QuestionId,
        /// The question prompt
        prompt: String,
        /// Items to order
        items: Vec<String>,
        /// Correct order (indices)
        correct_order: Vec<usize>,
        /// Explanation shown after answering
        explanation: String,
        /// Points for correct answer
        points: u32,
    },
    /// Matching pairs
    Matching {
        /// Unique ID
        id: QuestionId,
        /// The question prompt
        prompt: String,
        /// Left side items
        left: Vec<String>,
        /// Right side items
        right: Vec<String>,
        /// Correct pairs as (left_idx, right_idx)
        correct_pairs: Vec<(usize, usize)>,
        /// Points for correct answer
        points: u32,
    },
    /// Free-form code (graded by test cases)
    FreeformCode {
        /// Unique ID
        id: QuestionId,
        /// The question prompt
        prompt: String,
        /// Programming language
        language: Language,
        /// Starter code template
        starter_code: String,
        /// Visible test cases
        test_cases: Vec<TestCase>,
        /// Hidden test cases (for grading)
        hidden_test_cases: Vec<TestCase>,
        /// Points for correct answer
        points: u32,
    },
}

impl Question {
    /// The points value of the question, as a spec-level accessor.
    pub open spec fn spec_points(&self) -> u32 {
        match self {
            Question::MultipleChoice { points, .. } => *points,
            Question::MultipleSelect { points, .. } => *points,
            Question::CodeCompletion { points, .. } => *points,
            Question::Ordering { points, .. } => *points,
            Question::Matching { points, .. } => *points,
            Question::FreeformCode { points, .. } => *points,
        }
    }

    /// The question ID, as a spec-level accessor.
    pub open spec fn spec_id(&self) -> QuestionId {
        match self {
            Question::MultipleChoice { id, .. } => *id,
            Question::MultipleSelect { id, .. } => *id,
            Question::CodeCompletion { id, .. } => *id,
            Question::Ordering { id, .. } => *id,
            Question::Matching { id, .. } => *id,
            Question::FreeformCode { id, .. } => *id,
        }
    }

    /// The question prompt, as a spec-level accessor.
    pub open spec fn spec_prompt(&self) -> Seq<char> {
        match self {
            Question::MultipleChoice { prompt, .. } => prompt@,
            Question::MultipleSelect { prompt, .. } => prompt@,
            Question::CodeCompletion { prompt, .. } => prompt@,
            Question::Ordering { prompt, .. } => prompt@,
            Question::Matching { prompt, .. } => prompt@,
            Question::FreeformCode { prompt, .. } => prompt@,
        }
    }

    /// Get the points value for this question.
    pub fn points(&self) -> (r: u32)
        ensures
            r == self.spec_points(),
    {
        match self {
            Question::MultipleChoice { points, .. } => *points,
            Question::MultipleSelect { points, .. } => *points,
            Question::CodeCompletion { points, .. } => *points,
            Question::Ordering { points, .. } => *points,
            Question::Matching { points, .. } => *points,
            Question::FreeformCode { points, .. } => *points,
        }
    }

    /// Get the question ID.
    pub fn id(&self) -> (r: &QuestionId)
        ensures
            *r == self.spec_id(),
    {
        match self {
            Question::MultipleChoice { id, .. } => id,
            Question::MultipleSelect { id, .. } => id,
            Question::CodeCompletion { id, .. } => id,
            Question::Ordering { id, .. } => id,
            Question::Matching { id, .. } => id,
            Question::FreeformCode { id, .. } => id,
        }
    }

    /// Get the question prompt.
    pub fn prompt(&self) -> (r: &str)
        ensures
            r@ == self.spec_prompt(),
    {
        match self {
            Question::MultipleChoice { prompt, .. } => prompt.as_str(),
            Question::MultipleSelect { prompt, .. } => prompt.as_str(),
            Question::CodeCompletion { prompt, .. } => prompt.as_str(),
            Question::Ordering { prompt, .. } => prompt.as_str(),
            Question::Matching { prompt, .. } => prompt.as_str(),
            Question::FreeformCode { prompt, .. } => prompt.as_str(),
        }
    }
}

/// A blank in code completion questions.
#[derive(Debug, Clone, PartialEq)]
pub struct Blank {
    /// Identifier for this blank (e.g., "blank1")
    pub id: String,
    /// List of acceptable answers
    pub acceptable_answers: Vec<String>,
    /// Optional hint
    pub hint: Option<String>,
}

/// Whether the answer text is one of the blank's acceptable answers.
pub open spec fn blank_accepts(b: &Blank, answer: Seq<char>) -> bool {
    exists|i: int| 0 <= i < b.acceptable_answers@.len() && b.acceptable_answers@[i]@ == answer
}

impl Blank {
    /// Create a new blank.
    pub fn new(id: &str) -> (r: Self)
        ensures
            r.id@ == id@,
            r.acceptable_answers@ == Seq::<String>::empty(),
            r.hint is None,
    {
        Blank { id: id.to_owned(), acceptable_answers: Vec::new(), hint: None }
    }

    /// Add an acceptable answer.
    pub fn with_answer(self, answer: &str) -> (r: Self)
        ensures
            r.id == self.id,
            r.hint == self.hint,
            r.acceptable_answers@.len() == self.acceptable_answers@.len() + 1,
            r.acceptable_answers@.last()@ == answer@,
            forall|i: int|
                0 <= i < self.acceptable_answers@.len() ==> r.acceptable_answers@[i]
                    == self.acceptable_answers@[i],
    {
        let mut b = self;
        b.acceptable_answers.push(answer.to_owned());
        b
    }

    /// Set the hint.
    pub fn with_hint(self, hint: &str) -> (r: Self)
        ensures
            r.id == self.id,
            r.acceptable_answers == self.acceptable_answers,
            (match r.hint {
                Some(h) => h@ == hint@,
                None => false,
            }),
    {
        Blank { hint: Some(hint.to_owned()), ..self }
    }

    /// Check if an answer is acceptable.
    pub fn is_acceptable(&self, answer: &str) -> (r: bool)
        ensures
            r == blank_accepts(self, answer@),
    {
        let n = self.acceptable_answers.len();
        let mut i: usize = 0;
        while i < n
            invariant
                i <= n,
                n == self.acceptable_answers@.len(),
                forall|j: int| 0 <= j < i ==> self.acceptable_answers@[j]@ != answer@,
            decreases n - i,
        {
            if crate::strutil::str_eq(self.acceptable_answers[i].as_str(), answer) {
                return true;
            }
            i = i + 1;
        }
        false
    }
}

/// Test case for code validation.
#[derive(Debug, Clone, PartialEq)]
pub struct TestCase {
    /// Name of the test case
    pub name: String,
    /// Input to the code
    pub input: String,
    /// Expected output
    pub expected_output: String,
    /// Timeout in milliseconds
    pub timeout_ms: u32,
}

impl TestCase {
    /// Create a new test case.
    pub fn new(name: &str) -> (r: Self)
        ensures
            r.name@ == name@,
            r.input@ == Seq::<char>::empty(),
            r.expected_output@ == Seq::<char>::empty(),
            r.timeout_ms == 5000,
    {
        TestCase {
            name: name.to_owned(),
            input: String::new(),
            expected_output: String::new(),
            timeout_ms: 5000,
        }
    }

    /// Set the input.
    pub fn with_input(self, input: &str) -> (r: Self)
        ensures
            r.name == self.name,
            r.input@ == input@,
            r.expected_output == self.expected_output,
            r.timeout_ms == self.timeout_ms,
    {
        TestCase { input: input.to_owned(), ..self }
    }

    /// Set the expected output.
    pub fn with_expected(self, expected: &str) -> (r: Self)
        ensures
            r.name == self.name,
            r.input == self.input,
            r.expected_output@ == expected@,
            r.timeout_ms == self.timeout_ms,
    {
        TestCase { expected_output: expected.to_owned(), ..self }
    }

    /// Set the timeout.
    pub fn with_timeout_ms(self, timeout: u32) -> (r: Self)
        ensures
            r == (TestCase { timeout_ms: timeout, ..self }),
    {
        TestCase { timeout_ms: timeout, ..self }
    }
}

/// An answer submitted by a learner.
#[derive(Debug, Clone, PartialEq)]
pub enum Answer {
    /// Single choice selection
    Choice(usize),
    /// Multiple choices selected
    MultiChoice(Vec<usize>),
    /// Ordering of items
    Order(Vec<usize>),
    /// Matching pairs
    Pairs(Vec<(usize, usize)>),
    /// Code answer
    Code(String),
    /// Filled blanks (blank_id -> answer)
    Blanks(Vec<(String, String)>),
}

/// Feedback for an answered question.
#[derive(Debug, Clone, PartialEq)]
pub struct Feedback {
    /// Whether the answer was correct
    pub correct: bool,
    /// Explanation or feedback text
    pub explanation: String,
    /// Points earned
    pub points_earned: u32,
}

impl Feedback {
    /// Create feedback for a correct answer.
    pub fn correct(explanation: &str, points: u32) -> (r: Self)
        ensures
            r.correct == true,
            r.explanation@ == explanation@,
            r.points_earned == points,
    {
        Feedback { correct: true, explanation: explanation.to_owned(), points_earned: points }
    }

    /// Create feedback for an incorrect answer.
    pub fn incorrect(explanation: &str) -> (r: Self)
        ensures
            r.correct == false,
            r.explanation@ == explanation@,
            r.points_earned == 0,
    {
        Feedback { correct: false, explanation: explanation.to_owned(), points_earned: 0 }
    }
}

/// Score for a completed quiz.
#[derive(Debug, Clone, Copy, PartialEq, Eq, Structural)]
pub struct Score {
    /// Points earned
    pub points_earned: u32,
    /// Total possible points
    pub points_possible: u32,
    /// Score as per-mille of the possible points (0 ..= 1000), rounded down
    pub permille: u32,
    /// Number of correct answers
    pub correct_count: usize,
    /// Total number of questions
    pub total_questions: usize,
    /// Whether the quiz was passed
    pub passed: bool,
}

/// Whether earning `earned` of `possible` points meets a per-mille passing
/// threshold: the exact comparison `earned / possible >= threshold / 1000`,
/// with an empty quiz passing only a zero threshold.
pub open spec fn meets_threshold(earned: int, possible: int, threshold: int) -> bool {
    if possible > 0 {
        earned * 1000 >= threshold * possible
    } else {
        threshold == 0
    }
}

/// The earned fraction in per-mille, rounded down and saturating at
/// `u32::MAX` (zero when no points were possible).
pub open spec fn permille_of(earned: int, possible: int) -> int {
    if possible > 0 {
        if earned * 1000 / possible > u32::MAX {
            u32::MAX as int
        } else {
            earned * 1000 / possible
        }
    } else {
        0
    }
}

impl Score {
    /// The score that `calculate` produces, as a spec-level value.
    pub open spec fn calculate_spec(
        points_earned: u32,
        points_possible: u32,
        passing_threshold: u32,
        correct_count: usize,
        total_questions: usize,
    ) -> Score {
        Score {
            points_earned: points_earned,
            points_possible: points_possible,
            permille: permille_of(points_earned as int, points_possible as int) as u32,
            correct_count: correct_count,
            total_questions: total_questions,
            passed: meets_threshold(
                points_earned as int,
                points_possible as int,
                passing_threshold as int,
            ),
        }
    }

    /// Calculate a score from points.  `passing_threshold` is per-mille.
    pub fn calculate(
        points_earned: u32,
        points_possible: u32,
        passing_threshold: u32,
        correct_count: usize,
        total_questions: usize,
    ) -> (r: Score)
        ensures
            r.points_earned == points_earned,
            r.points_possible == points_possible,
            r.permille == permille_of(points_earned as int, points_possible as int),
            r.correct_count == correct_count,
            r.total_questions == total_questions,
            r.passed == meets_threshold(
                points_earned as int,
                points_possible as int,
                passing_threshold as int,
            ),
            r == Score::calculate_spec(
                points_earned,
                points_possible,
                passing_threshold,
                correct_count,
                total_questions,
            ),
    {
        let permille: u32 = if points_possible > 0 {
            let v: u64 = (points_earned as u64 * 1000) / (points_possible as u64);
            if v > u32::MAX as u64 {
                u32::MAX
            } else {
                v as u32
            }
        } else {
            0
        };
        proof {
            assert(passing_threshold as int * points_possible as int <= u128::MAX)
                by (nonlinear_arith)
                requires
                    passing_threshold <= u32::MAX,
                    points_possible <= u32::MAX,
            ;
        }
        let passed: bool = if points_possible > 0 {
            points_earned as u128 * 1000 >= passing_threshold as u128 * points_possible as u128
        } else {
            passing_threshold == 0
        };
        Score {
            points_earned,
            points_possible,
            permille,
            correct_count,
            total_questions,
            passed,
        }
    }
}

} // verus!
