//! Quiz state machine.
//!
//! Implements the quiz flow with immediate feedback: starting an attempt,
//! stepping through the questions, grading each answer as it is submitted,
//! and computing the final score.

use vstd::prelude::*;

use crate::grader::{
    answer_correct, count_correct, feedback_explanation, sum_earned, Grader,
};
use crate::quiz::{sum_points, Answer, Feedback, Question, Quiz, Score};

verus! {

/// Quiz state machine.
#[derive(Debug, Clone, PartialEq)]
pub enum QuizState {
    /// Quiz has not been started
    NotStarted,
    /// Quiz is in progress
    InProgress {
        /// Index of current question (0-based)
        current_question: usize,
        /// Answers submitted so far
        answers: Vec<Option<Answer>>,
        /// Feedback for each answered question
        feedback: Vec<Option<Feedback>>,
    },
    /// Quiz is being reviewed
    Reviewing {
        /// All answers
        answers: Vec<Answer>,
        /// Feedback for all questions
        feedback: Vec<Feedback>,
        /// Final score
        score: Score,
    },
    /// Quiz has been completed
    Completed {
        /// Final score
        score: Score,
        /// Attempt number
        attempt_number: u32,
    },
}

/// Errors that can occur during quiz operations.
#[derive(Debug, Clone, Copy, PartialEq, Eq, Structural)]
pub enum QuizError {
    /// Maximum number of attempts has been reached
    MaxAttemptsReached,
    /// No questions in the quiz
    NoQuestions,
    /// Operation not valid in current state
    InvalidState,
    /// Current question has not been answered
    QuestionNotAnswered,
    /// No more questions available
    NoMoreQuestions,
    /// No previous question (already at first)
    NoPreviousQuestion,
}

impl QuizError {
    /// A human-readable message for the error.
    pub fn message(&self) -> (r: &'static str)
        ensures
            r@ == (match self {
                QuizError::MaxAttemptsReached => "Maximum attempts reached"@,
                QuizError::NoQuestions => "Quiz has no questions"@,
                QuizError::InvalidState => "Invalid state for this operation"@,
                QuizError::QuestionNotAnswered => "Current question not answered"@,
                QuizError::NoMoreQuestions => "No more questions"@,
                QuizError::NoPreviousQuestion => "No previous question"@,
            }),
    {
        match self {
            QuizError::MaxAttemptsReached => "Maximum attempts reached",
            QuizError::NoQuestions => "Quiz has no questions",
            QuizError::InvalidState => "Invalid state for this operation",
            QuizError::QuestionNotAnswered => "Current question not answered",
            QuizError::NoMoreQuestions => "No more questions",
            QuizError::NoPreviousQuestion => "No previous question",
        }
    }
}

/// Sum of the points in a sequence of optional feedback entries, counting
/// an unanswered question as zero.
pub open spec fn sum_opt_earned(fs: Seq<Option<Feedback>>) -> int
    decreases fs.len(),
{
    if fs.len() == 0 {
        0
    } else {
        sum_opt_earned(fs.drop_last()) + (match fs.last() {
            Some(f) => f.points_earned as int,
            None => 0,
        })
    }
}

/// How many optional feedback entries are present and marked correct.
pub open spec fn count_opt_correct(fs: Seq<Option<Feedback>>) -> int
    decreases fs.len(),
{
    if fs.len() == 0 {
        0
    } else {
        count_opt_correct(fs.drop_last()) + (match fs.last() {
            Some(f) => if f.correct {
                1int
            } else {
                0int
            },
            None => 0,
        })
    }
}

/// How many answer slots are filled.
pub open spec fn count_answered(ans: Seq<Option<Answer>>) -> int
    decreases ans.len(),
{
    if ans.len() == 0 {
        0
    } else {
        count_answered(ans.drop_last()) + (match ans.last() {
            Some(..) => 1int,
            None => 0,
        })
    }
}

/// Quiz engine that manages quiz state and progression.
#[derive(Debug, Clone)]
pub struct QuizEngine {
    /// The quiz being taken
    pub quiz: Quiz,
    /// Current state of the attempt
    pub state: QuizState,
    /// Attempts made so far
    pub attempt_count: u32,
}

impl QuizEngine {
    /// Structural validity: an in-progress attempt tracks one answer and
    /// one feedback slot per question, points stay within the question's
    /// value, and the quiz's total points fit in a machine word.
    pub open spec fn wf(&self) -> bool {
        &&& sum_points(self.quiz.questions@) <= u32::MAX
        &&& match self.state {
            QuizState::InProgress { current_question, answers, feedback } => {
                &&& answers@.len() == self.quiz.questions@.len()
                &&& feedback@.len() == self.quiz.questions@.len()
                &&& current_question < self.quiz.questions@.len()
                &&& forall|i: int|
                    0 <= i < feedback@.len() ==> (match #[trigger] feedback@[i] {
                        Some(f) => f.points_earned == 0 || f.points_earned
                            == self.quiz.questions@[i].spec_points(),
                        None => true,
                    })
            },
            _ => true,
        }
    }

    /// Create a new quiz engine.
    pub fn new(quiz: Quiz) -> (r: Self)
        requires
            sum_points(quiz.questions@) <= u32::MAX,
        ensures
            r.quiz == quiz,
            r.state == QuizState::NotStarted,
            r.attempt_count == 0,
            r.wf(),
    {
        QuizEngine { quiz, state: QuizState::NotStarted, attempt_count: 0 }
    }

    /// Get the current state.
    pub fn state(&self) -> (r: &QuizState)
        ensures
            r == &self.state,
    {
        &self.state
    }

    /// Get the quiz.
    pub fn quiz(&self) -> (r: &Quiz)
        ensures
            r == &self.quiz,
    {
        &self.quiz
    }

    /// Get the number of attempts made.
    pub fn attempt_count(&self) -> (r: u32)
        ensures
            r == self.attempt_count,
    {
        self.attempt_count
    }

    /// Whether another attempt is allowed.
    pub open spec fn spec_can_attempt(&self) -> bool {
        match self.quiz.max_attempts {
            Some(max) => self.attempt_count < max,
            None => true,
        }
    }

    /// Check if another attempt is allowed.
    pub fn can_attempt(&self) -> (r: bool)
        ensures
            r == self.spec_can_attempt(),
    {
        match self.quiz.max_attempts {
            Some(max) => self.attempt_count < max,
            None => true,
        }
    }

    /// Start a new quiz attempt.
    ///
    /// Returns an error if maximum attempts have been reached or the quiz
    /// has no questions; otherwise moves to the first question.
    pub fn start(&mut self) -> (r: Result<&Question, QuizError>)
        requires
            old(self).wf(),
            old(self).attempt_count < u32::MAX,
        ensures
            final (self).wf(),
            final (self).quiz == old(self).quiz,
            !old(self).spec_can_attempt() ==> r == Err::<&Question, QuizError>(
                QuizError::MaxAttemptsReached,
            ) && *final (self) == *old(self),
            old(self).spec_can_attempt() && old(self).quiz.questions@.len() == 0 ==> r
                == Err::<&Question, QuizError>(QuizError::NoQuestions) && *final (self)
                == *old(self),
            old(self).spec_can_attempt() && old(self).quiz.questions@.len() > 0 ==> {
                &&& final (self).attempt_count == old(self).attempt_count + 1
                &&& (match final (self).state {
                    QuizState::InProgress { current_question, answers, feedback } => {
                        &&& current_question == 0
                        &&& answers@.len() == old(self).quiz.questions@.len()
                        &&& feedback@.len() == old(self).quiz.questions@.len()
                        &&& forall|i: int| 0 <= i < answers@.len() ==> #[trigger] answers@[i]
                            is None
                        &&& forall|i: int| 0 <= i < feedback@.len() ==> #[trigger] feedback@[i]
                            is None
                    },
                    _ => false,
                })
                &&& (match r {
                    Ok(q) => q == &old(self).quiz.questions@[0],
                    Err(..) => false,
                })
            },
    {
        if !self.can_attempt() {
            return Err(QuizError::MaxAttemptsReached);
        }
        let question_count = self.quiz.questions.len();
        if question_count == 0 {
            return Err(QuizError::NoQuestions);
        }

        self.attempt_count = self.attempt_count + 1;

        let mut answers: Vec<Option<Answer>> = Vec::new();
        let mut feedback: Vec<Option<Feedback>> = Vec::new();
        let mut i: usize = 0;
        while i < question_count
            invariant
                i <= question_count,
                answers@.len() == i,
                feedback@.len() == i,
                forall|j: int| 0 <= j < i ==> #[trigger] answers@[j] is None,
                forall|j: int| 0 <= j < i ==> #[trigger] feedback@[j] is None,
            decreases question_count - i,
        {
            answers.push(None);
            feedback.push(None);
            i = i + 1;
        }

        self.state = QuizState::InProgress { current_question: 0, answers, feedback };

        Ok(&self.quiz.questions[0])
    }

    /// Get the current question.
    pub fn current_question(&self) -> (r: Result<&Question, QuizError>)
        requires
            self.wf(),
        ensures
            (match self.state {
                QuizState::InProgress { current_question, .. } => r == Ok::<&Question, QuizError>(
                    &self.quiz.questions@[current_question as int],
                ),
                _ => r == Err::<&Question, QuizError>(QuizError::InvalidState),
            }),
    {
        match &self.state {
            QuizState::InProgress { current_question, .. } => {
                if *current_question < self.quiz.questions.len() {
                    Ok(&self.quiz.questions[*current_question])
                } else {
                    Err(QuizError::InvalidState)
                }
            },
            _ => Err(QuizError::InvalidState),
        }
    }

    /// Submit an answer for the current question.
    ///
    /// The answer is graded immediately; the feedback is both returned and
    /// recorded in the attempt.
    pub fn submit_answer(&mut self, answer: Answer) -> (r: Result<Feedback, QuizError>)
        requires
            old(self).wf(),
        ensures
            final (self).wf(),
            final (self).quiz == old(self).quiz,
            final (self).attempt_count == old(self).attempt_count,
            (match old(self).state {
                QuizState::InProgress { current_question, answers, feedback } => {
                    let q = old(self).quiz.questions@[current_question as int];
                    match r {
                        Ok(fb) => {
                            &&& fb.correct == answer_correct(&q, &answer)
                            &&& fb.points_earned == if answer_correct(&q, &answer) {
                                q.spec_points()
                            } else {
                                0u32
                            }
                            &&& fb.explanation@ == feedback_explanation(&q, &answer)
                            &&& (match final (self).state {
                                QuizState::InProgress {
                                    current_question: cq2,
                                    answers: a2,
                                    feedback: f2,
                                } => {
                                    &&& cq2 == current_question
                                    &&& a2@ == answers@.update(
                                        current_question as int,
                                        Some(answer),
                                    )
                                    &&& f2@ == feedback@.update(current_question as int, Some(fb))
                                },
                                _ => false,
                            })
                        },
                        Err(..) => false,
                    }
                },
                _ => r == Err::<Feedback, QuizError>(QuizError::InvalidState) && *final (self)
                    == *old(self),
            }),
    {
        let is_in_progress = matches!(&self.state, QuizState::InProgress { .. });
        if !is_in_progress {
            return Err(QuizError::InvalidState);
        }
        let current_idx: usize = match &self.state {
            QuizState::InProgress { current_question, .. } => *current_question,
            _ => 0,
        };
        let feedback_entry = Grader::grade_answer(&self.quiz.questions[current_idx], &answer);
        let stored = Feedback {
            correct: feedback_entry.correct,
            explanation: feedback_entry.explanation.clone(),
            points_earned: feedback_entry.points_earned,
        };
        match &mut self.state {
            QuizState::InProgress { answers, feedback, .. } => {
                answers.set(current_idx, Some(answer));
                feedback.set(current_idx, Some(stored));
            },
            _ => {},
        }
        Ok(feedback_entry)
    }

    /// Move to the next question.
    ///
    /// Returns the next question, or an error when the current question is
    /// unanswered or the quiz is at its last question.
    pub fn next_question(&mut self) -> (r: Result<&Question, QuizError>)
        requires
            old(self).wf(),
        ensures
            final (self).wf(),
            final (self).quiz == old(self).quiz,
            final (self).attempt_count == old(self).attempt_count,
            (match old(self).state {
                QuizState::InProgress { current_question, answers, feedback } => {
                    if answers@[current_question as int] is None {
                        r == Err::<&Question, QuizError>(QuizError::QuestionNotAnswered) && *final (
                        self) == *old(self)
                    } else if current_question + 1 >= old(self).quiz.questions@.len() {
                        r == Err::<&Question, QuizError>(QuizError::NoMoreQuestions) && *final (
                        self) == *old(self)
                    } else {
                        &&& (match final (self).state {
                            QuizState::InProgress {
                                current_question: cq2,
                                answers: a2,
                                feedback: f2,
                            } => cq2 == current_question + 1 && a2 == answers && f2 == feedback,
                            _ => false,
                        })
                        &&& (match r {
                            Ok(q) => q == &old(self).quiz.questions@[current_question + 1],
                            Err(..) => false,
                        })
                    }
                },
                _ => r == Err::<&Question, QuizError>(QuizError::InvalidState) && *final (self)
                    == *old(self),
            }),
    {
        let questions_len = self.quiz.questions.len();
        match &mut self.state {
            QuizState::InProgress { current_question, answers, .. } => {
                let answered = match &answers[*current_question] {
                    Some(..) => true,
                    None => false,
                };
                if !answered {
                    return Err(QuizError::QuestionNotAnswered);
                }
                let next_idx = *current_question + 1;
                if next_idx >= questions_len {
                    return Err(QuizError::NoMoreQuestions);
                }
                *current_question = next_idx;
            },
            _ => {
                return Err(QuizError::InvalidState);
            },
        }
        let idx: usize = match &self.state {
            QuizState::InProgress { current_question, .. } => *current_question,
            _ => 0,
        };
        Ok(&self.quiz.questions[idx])
    }

    /// Move to the previous question.
    pub fn previous_question(&mut self) -> (r: Result<&Question, QuizError>)
        requires
            old(self).wf(),
        ensures
            final (self).wf(),
            final (self).quiz == old(self).quiz,
            final (self).attempt_count == old(self).attempt_count,
            (match old(self).state {
                QuizState::InProgress { current_question, answers, feedback } => {
                    if current_question == 0 {
                        r == Err::<&Question, QuizError>(QuizError::NoPreviousQuestion) && *final (
                        self) == *old(self)
                    } else {
                        &&& (match final (self).state {
                            QuizState::InProgress {
                                current_question: cq2,
                                answers: a2,
                                feedback: f2,
                            } => cq2 == current_question - 1 && a2 == answers && f2 == feedback,
                            _ => false,
                        })
                        &&& (match r {
                            Ok(q) => q == &old(self).quiz.questions@[current_question - 1],
                            Err(..) => false,
                        })
                    }
                },
                _ => r == Err::<&Question, QuizError>(QuizError::InvalidState) && *final (self)
                    == *old(self),
            }),
    {
        match &mut self.state {
            QuizState::InProgress { current_question, .. } => {
                if *current_question == 0 {
                    return Err(QuizError::NoPreviousQuestion);
                }
                *current_question = *current_question - 1;
            },
            _ => {
                return Err(QuizError::InvalidState);
            },
        }
        let idx: usize = match &self.state {
            QuizState::InProgress { current_question, .. } => *current_question,
            _ => 0,
        };
        Ok(&self.quiz.questions[idx])
    }

    /// Finish the quiz and calculate the final score.
    ///
    /// Unanswered questions count as incorrect with zero points.
    pub fn finish(&mut self) -> (r: Result<Score, QuizError>)
        requires
            old(self).wf(),
        ensures
            final (self).wf(),
            final (self).quiz == old(self).quiz,
            final (self).attempt_count == old(self).attempt_count,
            (match old(self).state {
                QuizState::InProgress { current_question, answers, feedback } => {
                    let score = Score::calculate_spec(
                        sum_opt_earned(feedback@) as u32,
                        sum_points(old(self).quiz.questions@) as u32,
                        old(self).quiz.passing_score,
                        count_opt_correct(feedback@) as usize,
                        old(self).quiz.questions@.len() as usize,
                    );
                    &&& r == Ok::<Score, QuizError>(score)
                    &&& final (self).state == (QuizState::Completed {
                        score,
                        attempt_number: old(self).attempt_count,
                    })
                },
                _ => r == Err::<Score, QuizError>(QuizError::InvalidState) && *final (self)
                    == *old(self),
            }),
    {
        let collected: Vec<Feedback> = match &self.state {
            QuizState::InProgress { feedback, .. } => {
                let n = feedback.len();
                let mut out: Vec<Feedback> = Vec::new();
                let mut i: usize = 0;
                proof {
                    assert(feedback@.take(0) =~= Seq::<Option<Feedback>>::empty());
                }
                while i < n
                    invariant
                        i <= n,
                        n == feedback@.len(),
                        out@.len() == i,
                        sum_earned(out@) == sum_opt_earned(feedback@.take(i as int)),
                        count_correct(out@) == count_opt_correct(feedback@.take(i as int)),
                        forall|j: int|
                            0 <= j < i ==> (#[trigger] out@[j]).points_earned == (match feedback@[
                                j
                            ] {
                                Some(f) => f.points_earned,
                                None => 0u32,
                            }),
                    decreases n - i,
                {
                    let ghost out0 = out@;
                    let entry = match &feedback[i] {
                        Some(f) => Feedback {
                            correct: f.correct,
                            explanation: f.explanation.clone(),
                            points_earned: f.points_earned,
                        },
                        None => Feedback::incorrect("Not answered"),
                    };
                    out.push(entry);
                    proof {
                        assert(out@.drop_last() =~= out0);
                        assert(feedback@.take(i + 1).drop_last() =~= feedback@.take(i as int));
                        assert(feedback@.take(i + 1).last() == feedback@[i as int]);
                    }
                    i = i + 1;
                }
                proof {
                    assert(feedback@.take(n as int) =~= feedback@);
                }
                out
            },
            _ => {
                return Err(QuizError::InvalidState);
            },
        };
        proof {
            let feedback_seq = (match old(self).state {
                QuizState::InProgress { feedback, .. } => feedback@,
                _ => Seq::empty(),
            });
            lemma_sum_opt_bounded(feedback_seq, self.quiz.questions@);
            lemma_sum_opt_nonneg(feedback_seq);
        }
        let score = Grader::calculate_score(&self.quiz, collected.as_slice());
        let stored = score;
        self.state = QuizState::Completed { score: stored, attempt_number: self.attempt_count };
        Ok(score)
    }

    /// The progress through the quiz in per-mille (0 ..= 1000).
    pub open spec fn spec_progress(&self) -> int {
        match self.state {
            QuizState::NotStarted => 0,
            QuizState::InProgress { answers, .. } => if answers@.len() == 0 {
                0
            } else {
                count_answered(answers@) * 1000 / answers@.len() as int
            },
            QuizState::Reviewing { .. } => 1000,
            QuizState::Completed { .. } => 1000,
        }
    }

    /// Get the progress through the quiz in per-mille (0 ..= 1000).
    pub fn progress(&self) -> (r: u32)
        requires
            self.wf(),
        ensures
            r == self.spec_progress(),
            r <= 1000,
    {
        match &self.state {
            QuizState::NotStarted => 0,
            QuizState::InProgress { answers, .. } => {
                let n = answers.len();
                if n == 0 {
                    0
                } else {
                    let mut count: usize = 0;
                    let mut i: usize = 0;
                    proof {
                        assert(answers@.take(0) =~= Seq::<Option<Answer>>::empty());
                    }
                    while i < n
                        invariant
                            i <= n,
                            n == answers@.len(),
                            count == count_answered(answers@.take(i as int)),
                            count <= i,
                        decreases n - i,
                    {
                        proof {
                            assert(answers@.take(i + 1).drop_last() =~= answers@.take(i as int));
                            assert(answers@.take(i + 1).last() == answers@[i as int]);
                        }
                        let answered = match &answers[i] {
                            Some(..) => true,
                            None => false,
                        };
                        if answered {
                            count = count + 1;
                        }
                        i = i + 1;
                    }
                    proof {
                        assert(answers@.take(n as int) =~= answers@);
                        assert(count_answered(answers@) * 1000 / answers@.len() as int <= 1000)
                            by (nonlinear_arith)
                            requires
                                0 <= count_answered(answers@) <= answers@.len(),
                                answers@.len() > 0,
                        ;
                        assert(count_answered(answers@) * 1000 / answers@.len() as int >= 0)
                            by (nonlinear_arith)
                            requires
                                0 <= count_answered(answers@),
                                answers@.len() > 0,
                        ;
                    }
                    ((count as u128 * 1000) / (n as u128)) as u32
                }
            },
            QuizState::Reviewing { .. } => 1000,
            QuizState::Completed { .. } => 1000,
        }
    }
}

/// Recorded feedback points never exceed the quiz's total points.
proof fn lemma_sum_opt_bounded(fs: Seq<Option<Feedback>>, qs: Seq<Question>)
    requires
        fs.len() == qs.len(),
        forall|i: int|
            0 <= i < fs.len() ==> (match #[trigger] fs[i] {
                Some(f) => f.points_earned == 0 || f.points_earned == qs[i].spec_points(),
                None => true,
            }),
    ensures
        sum_opt_earned(fs) <= sum_points(qs),
    decreases fs.len(),
{
    if fs.len() > 0 {
        assert(forall|i: int|
            0 <= i < fs.drop_last().len() ==> fs.drop_last()[i] == fs[i]);
        lemma_sum_opt_bounded(fs.drop_last(), qs.drop_last());
        assert(fs[fs.len() - 1] == fs.last());
        assert(qs.last().spec_points() >= 0);
    }
}

proof fn lemma_sum_opt_nonneg(fs: Seq<Option<Feedback>>)
    ensures
        sum_opt_earned(fs) >= 0,
        0 <= count_opt_correct(fs) <= fs.len(),
    decreases fs.len(),
{
    if fs.len() > 0 {
        lemma_sum_opt_nonneg(fs.drop_last());
    }
}

} // verus!
