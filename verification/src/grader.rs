//! Quiz grading logic.
//!
//! Provides automatic grading for all question types.  Selection answers
//! are graded up to reordering, which is stated as multiset equality.

use vstd::prelude::*;

use vstd::multiset::Multiset;

use crate::quiz::{blank_accepts, sum_points, Answer, Blank, Feedback, Question, Quiz, Score};

verus! {

broadcast use vstd::seq_lib::group_to_multiset_ensures;

/// The index of the first entry of `filled` whose key is `id`, or -1 when
/// no entry matches.
pub open spec fn first_match_idx(filled: Seq<(String, String)>, id: Seq<char>) -> int
    decreases filled.len(),
{
    if filled.len() == 0 {
        -1
    } else if filled[0].0@ == id {
        0
    } else {
        let rest = first_match_idx(filled.skip(1), id);
        if rest < 0 {
            -1
        } else {
            rest + 1
        }
    }
}

proof fn lemma_first_match_idx(filled: Seq<(String, String)>, id: Seq<char>)
    ensures
        first_match_idx(filled, id) == -1 ==> forall|k: int|
            0 <= k < filled.len() ==> filled[k].0@ != id,
        first_match_idx(filled, id) != -1 ==> {
            let fi = first_match_idx(filled, id);
            &&& 0 <= fi < filled.len()
            &&& filled[fi].0@ == id
            &&& forall|k: int| 0 <= k < fi ==> filled[k].0@ != id
        },
    decreases filled.len(),
{
    if filled.len() > 0 && filled[0].0@ != id {
        lemma_first_match_idx(filled.skip(1), id);
        let rest = first_match_idx(filled.skip(1), id);
        if rest == -1 {
            assert forall|k: int| 0 <= k < filled.len() implies filled[k].0@ != id by {
                if k > 0 {
                    assert(filled.skip(1)[k - 1].0@ != id);
                }
            }
        } else {
            assert(filled[rest + 1] == filled.skip(1)[rest]);
            assert forall|k: int| 0 <= k < rest + 1 implies filled[k].0@ != id by {
                if k > 0 {
                    assert(filled.skip(1)[k - 1].0@ != id);
                }
            }
        }
    }
}

/// Whether the first filled entry for this blank's identifier exists and
/// holds an acceptable answer, as the grader reads submitted blanks.
pub open spec fn blank_filled_ok(b: Blank, filled: Seq<(String, String)>) -> bool {
    let fi = first_match_idx(filled, b.id@);
    fi >= 0 && blank_accepts(&b, filled[fi].1@)
}

/// Whether every blank of a code-completion question is correctly filled.
pub open spec fn all_blanks_ok(blanks: Seq<Blank>, filled: Seq<(String, String)>) -> bool {
    forall|bi: int| 0 <= bi < blanks.len() ==> blank_filled_ok(#[trigger] blanks[bi], filled)
}

/// Whether an answer is the correct one for a question.  Multiple-select
/// and matching answers count as correct up to reordering.
pub open spec fn answer_correct(q: &Question, a: &Answer) -> bool {
    match (q, a) {
        (Question::MultipleChoice { correct, .. }, Answer::Choice(idx)) => correct == idx,
        (Question::MultipleSelect { correct, .. }, Answer::MultiChoice(indices)) => correct@.to_multiset() == indices@.to_multiset(),
        (Question::Ordering { correct_order, .. }, Answer::Order(order)) => correct_order@ == order@,
        (Question::Matching { correct_pairs, .. }, Answer::Pairs(pairs)) => correct_pairs@.to_multiset() == pairs@.to_multiset(),
        (Question::CodeCompletion { blanks, .. }, Answer::Blanks(filled)) => all_blanks_ok(
            blanks@,
            filled@,
        ),
        _ => false,
    }
}

/// The explanation text the grader attaches to its feedback.
pub open spec fn feedback_explanation(q: &Question, a: &Answer) -> Seq<char> {
    match (q, a) {
        (Question::MultipleChoice { explanation, .. }, Answer::Choice(..)) => explanation@,
        (Question::MultipleSelect { explanation, .. }, Answer::MultiChoice(..)) => explanation@,
        (Question::Ordering { explanation, .. }, Answer::Order(..)) => explanation@,
        (Question::Matching { .. }, Answer::Pairs(..)) => ""@,
        (Question::CodeCompletion { .. }, Answer::Blanks(..)) => ""@,
        (Question::FreeformCode { .. }, Answer::Code(..)) => "Code execution required"@,
        _ => "Invalid answer type"@,
    }
}

/// Decide whether two index vectors hold the same indices the same number
/// of times (equality up to reordering).
fn perm_eq_usize(a: &Vec<usize>, b: &Vec<usize>) -> (r: bool)
    ensures
        r == (a@.to_multiset() == b@.to_multiset()),
{
    if a.len() != b.len() {
        proof {
            assert(a@.to_multiset().len() == a@.len());
            assert(b@.to_multiset().len() == b@.len());
        }
        return false;
    }
    let mut rem: Vec<usize> = Vec::new();
    let nb = b.len();
    let mut i: usize = 0;
    while i < nb
        invariant
            i <= nb,
            nb == b@.len(),
            rem@ == b@.take(i as int),
        decreases nb - i,
    {
        rem.push(b[i]);
        proof {
            assert(rem@ =~= b@.take(i + 1));
        }
        i = i + 1;
    }
    proof {
        assert(b@.take(nb as int) =~= b@);
    }
    let na = a.len();
    let mut i: usize = 0;
    while i < na
        invariant
            i <= na,
            na == a@.len(),
            a@.take(i as int).to_multiset().add(rem@.to_multiset()) == b@.to_multiset(),
            rem@.len() + i == b@.len(),
        decreases na - i,
    {
        let x = a[i];
        let nr = rem.len();
        let mut j: usize = 0;
        let mut found: bool = false;
        while j < nr && !found
            invariant
                j <= nr,
                nr == rem@.len(),
                !found ==> forall|k: int| 0 <= k < j ==> rem@[k] != x,
                found ==> j < nr && rem@[j as int] == x,
            decreases nr - j + (if found { 0int } else { 1int }),
        {
            if rem[j] == x {
                found = true;
            } else {
                j = j + 1;
            }
        }
        if !found {
            proof {
                assert(!rem@.contains(x));
                assert(rem@.to_multiset().count(x) == 0);
                assert(a@ =~= a@.take(i as int) + a@.skip(i as int));
                vstd::seq_lib::lemma_multiset_commutative(a@.take(i as int), a@.skip(i as int));
                assert(a@.skip(i as int)[0] == x);
                assert(a@.skip(i as int).contains(x));
                assert(a@.skip(i as int).to_multiset().count(x) > 0);
                assert(a@.to_multiset().count(x) > a@.take(i as int).to_multiset().count(x));
                assert(b@.to_multiset().count(x) == a@.take(i as int).to_multiset().count(x));
            }
            return false;
        }
        let ghost rem0 = rem@;
        rem.remove(j);
        proof {
            assert(rem@ == rem0.remove(j as int));
            assert(rem0.remove(j as int).to_multiset() =~= rem0.to_multiset().remove(
                rem0[j as int],
            ));
            assert(a@.take(i + 1) =~= a@.take(i as int).push(x));
            assert(a@.take(i + 1).to_multiset() =~= a@.take(i as int).to_multiset().insert(x));
            assert(rem0.to_multiset().count(x) > 0);
            assert(a@.take(i + 1).to_multiset().add(rem@.to_multiset()) =~= b@.to_multiset());
        }
        i = i + 1;
    }
    proof {
        assert(a@.take(na as int) =~= a@);
        assert(rem@ =~= Seq::<usize>::empty());
        assert(rem@.to_multiset() =~= Multiset::<usize>::empty());
        assert(a@.to_multiset().add(Multiset::<usize>::empty()) =~= a@.to_multiset());
    }
    true
}

/// Decide whether two pair vectors hold the same pairs the same number of
/// times (equality up to reordering).
fn perm_eq_pairs(a: &Vec<(usize, usize)>, b: &Vec<(usize, usize)>) -> (r: bool)
    ensures
        r == (a@.to_multiset() == b@.to_multiset()),
{
    if a.len() != b.len() {
        proof {
            assert(a@.to_multiset().len() == a@.len());
            assert(b@.to_multiset().len() == b@.len());
        }
        return false;
    }
    let mut rem: Vec<(usize, usize)> = Vec::new();
    let nb = b.len();
    let mut i: usize = 0;
    while i < nb
        invariant
            i <= nb,
            nb == b@.len(),
            rem@ == b@.take(i as int),
        decreases nb - i,
    {
        rem.push(b[i]);
        proof {
            assert(rem@ =~= b@.take(i + 1));
        }
        i = i + 1;
    }
    proof {
        assert(b@.take(nb as int) =~= b@);
    }
    let na = a.len();
    let mut i: usize = 0;
    while i < na
        invariant
            i <= na,
            na == a@.len(),
            a@.take(i as int).to_multiset().add(rem@.to_multiset()) == b@.to_multiset(),
            rem@.len() + i == b@.len(),
        decreases na - i,
    {
        let x = a[i];
        let nr = rem.len();
        let mut j: usize = 0;
        let mut found: bool = false;
        while j < nr && !found
            invariant
                j <= nr,
                nr == rem@.len(),
                !found ==> forall|k: int| 0 <= k < j ==> rem@[k] != x,
                found ==> j < nr && rem@[j as int] == x,
            decreases nr - j + (if found { 0int } else { 1int }),
        {
            if rem[j].0 == x.0 && rem[j].1 == x.1 {
                proof {
                    assert(rem@[j as int] == x);
                }
                found = true;
            } else {
                proof {
                    assert(rem@[j as int] != x);
                }
                j = j + 1;
            }
        }
        if !found {
            proof {
                assert(!rem@.contains(x));
                assert(rem@.to_multiset().count(x) == 0);
                assert(a@ =~= a@.take(i as int) + a@.skip(i as int));
                vstd::seq_lib::lemma_multiset_commutative(a@.take(i as int), a@.skip(i as int));
                assert(a@.skip(i as int)[0] == x);
                assert(a@.skip(i as int).contains(x));
                assert(a@.skip(i as int).to_multiset().count(x) > 0);
                assert(a@.to_multiset().count(x) > a@.take(i as int).to_multiset().count(x));
                assert(b@.to_multiset().count(x) == a@.take(i as int).to_multiset().count(x));
            }
            return false;
        }
        let ghost rem0 = rem@;
        rem.remove(j);
        proof {
            assert(rem@ == rem0.remove(j as int));
            assert(rem0.remove(j as int).to_multiset() =~= rem0.to_multiset().remove(
                rem0[j as int],
            ));
            assert(a@.take(i + 1) =~= a@.take(i as int).push(x));
            assert(a@.take(i + 1).to_multiset() =~= a@.take(i as int).to_multiset().insert(x));
            assert(rem0.to_multiset().count(x) > 0);
            assert(a@.take(i + 1).to_multiset().add(rem@.to_multiset()) =~= b@.to_multiset());
        }
        i = i + 1;
    }
    proof {
        assert(a@.take(na as int) =~= a@);
        assert(rem@ =~= Seq::<(usize, usize)>::empty());
        assert(rem@.to_multiset() =~= Multiset::<(usize, usize)>::empty());
        assert(a@.to_multiset().add(Multiset::<(usize, usize)>::empty()) =~= a@.to_multiset());
    }
    true
}

/// Decide whether every blank has an acceptable first filled entry.
fn check_blanks(blanks: &Vec<Blank>, filled: &Vec<(String, String)>) -> (r: bool)
    ensures
        r == all_blanks_ok(blanks@, filled@),
{
    let nb = blanks.len();
    let mut bi: usize = 0;
    while bi < nb
        invariant
            bi <= nb,
            nb == blanks@.len(),
            forall|k: int| 0 <= k < bi ==> blank_filled_ok(#[trigger] blanks@[k], filled@),
        decreases nb - bi,
    {
        let blank = &blanks[bi];
        let nf = filled.len();
        let mut fi: usize = 0;
        let mut found: bool = false;
        while fi < nf && !found
            invariant
                fi <= nf,
                nf == filled@.len(),
                !found ==> forall|k: int| 0 <= k < fi ==> filled@[k].0@ != blank.id@,
                found ==> fi < nf && filled@[fi as int].0@ == blank.id@ && (forall|k: int|
                    0 <= k < fi ==> filled@[k].0@ != blank.id@),
            decreases nf - fi + (if found { 0int } else { 1int }),
        {
            if crate::strutil::str_eq(filled[fi].0.as_str(), blank.id.as_str()) {
                found = true;
            } else {
                fi = fi + 1;
            }
        }
        proof {
            lemma_first_match_idx(filled@, blank.id@);
        }
        if !found {
            proof {
                assert(first_match_idx(filled@, blank.id@) == -1) by {
                    if first_match_idx(filled@, blank.id@) != -1 {
                        assert(filled@[first_match_idx(filled@, blank.id@)].0@ == blank.id@);
                    }
                }
                assert(!blank_filled_ok(blanks@[bi as int], filled@));
            }
            return false;
        }
        proof {
            assert(first_match_idx(filled@, blank.id@) == fi) by {
                let fm = first_match_idx(filled@, blank.id@);
                if fm == -1 {
                    assert(filled@[fi as int].0@ != blank.id@);
                } else if fm < fi {
                    assert(filled@[fm].0@ != blank.id@);
                } else if fm > fi {
                    assert(filled@[fi as int].0@ != blank.id@);
                }
            }
        }
        if !blank.is_acceptable(filled[fi].1.as_str()) {
            proof {
                assert(!blank_filled_ok(blanks@[bi as int], filled@));
            }
            return false;
        }
        proof {
            assert(blank_filled_ok(blanks@[bi as int], filled@));
        }
        bi = bi + 1;
    }
    true
}

/// Auto-grader for quizzes.
pub struct Grader;

impl Grader {
    /// Grade a single answer against a question.  The feedback is correct
    /// exactly when the answer matches, carries the question's explanation
    /// text, and awards the question's points for a correct answer.
    pub fn grade_answer(question: &Question, answer: &Answer) -> (r: Feedback)
        ensures
            r.correct == answer_correct(question, answer),
            r.points_earned == if answer_correct(question, answer) {
                question.spec_points()
            } else {
                0u32
            },
            r.explanation@ == feedback_explanation(question, answer),
    {
        match (question, answer) {
            (Question::MultipleChoice { correct, explanation, points, .. }, Answer::Choice(idx)) => {
                if *correct == *idx {
                    Feedback::correct(explanation.as_str(), *points)
                } else {
                    Feedback::incorrect(explanation.as_str())
                }
            },
            (
                Question::MultipleSelect { correct, explanation, points, .. },
                Answer::MultiChoice(indices),
            ) => {
                if perm_eq_usize(correct, indices) {
                    Feedback::correct(explanation.as_str(), *points)
                } else {
                    Feedback::incorrect(explanation.as_str())
                }
            },
            (Question::Ordering { correct_order, explanation, points, .. }, Answer::Order(order)) => {
                if vec_eq_usize(correct_order, order) {
                    Feedback::correct(explanation.as_str(), *points)
                } else {
                    Feedback::incorrect(explanation.as_str())
                }
            },
            (Question::Matching { correct_pairs, points, .. }, Answer::Pairs(pairs)) => {
                if perm_eq_pairs(correct_pairs, pairs) {
                    Feedback::correct("", *points)
                } else {
                    Feedback::incorrect("")
                }
            },
            (Question::CodeCompletion { blanks, points, .. }, Answer::Blanks(filled)) => {
                if check_blanks(blanks, filled) {
                    Feedback::correct("", *points)
                } else {
                    Feedback::incorrect("")
                }
            },
            (Question::FreeformCode { .. }, Answer::Code(..)) => {
                Feedback::incorrect("Code execution required")
            },
            _ => Feedback::incorrect("Invalid answer type"),
        }
    }

    /// Calculate the final score for a quiz.
    pub fn calculate_score(quiz: &Quiz, feedback: &[Feedback]) -> (r: Score)
        requires
            sum_points(quiz.questions@) <= u32::MAX,
            sum_earned(feedback@) <= u32::MAX,
        ensures
            r == Score::calculate_spec(
                sum_earned(feedback@) as u32,
                sum_points(quiz.questions@) as u32,
                quiz.passing_score,
                count_correct(feedback@) as usize,
                quiz.questions@.len() as usize,
            ),
    {
        let points_earned = sum_feedback_points(feedback);
        let points_possible = quiz.total_points();
        let correct_count = count_correct_exec(feedback);
        let total_questions = quiz.question_count();
        Score::calculate(
            points_earned,
            points_possible,
            quiz.passing_score,
            correct_count,
            total_questions,
        )
    }

    /// Check if an answer matches the correct answer for a question.
    pub fn is_correct(question: &Question, answer: &Answer) -> (r: bool)
        ensures
            r == answer_correct(question, answer),
    {
        Grader::grade_answer(question, answer).correct
    }
}

/// Compare two index vectors for equality in order.
fn vec_eq_usize(a: &Vec<usize>, b: &Vec<usize>) -> (r: bool)
    ensures
        r == (a@ == b@),
{
    if a.len() != b.len() {
        return false;
    }
    let n = a.len();
    let mut i: usize = 0;
    while i < n
        invariant
            i <= n,
            n == a@.len(),
            n == b@.len(),
            forall|j: int| 0 <= j < i ==> a@[j] == b@[j],
        decreases n - i,
    {
        if a[i] != b[i] {
            return false;
        }
        i = i + 1;
    }
    proof {
        assert(a@ =~= b@);
    }
    true
}

/// Sum of the points earned over a feedback sequence.
pub open spec fn sum_earned(fs: Seq<Feedback>) -> int
    decreases fs.len(),
{
    if fs.len() == 0 {
        0
    } else {
        sum_earned(fs.drop_last()) + fs.last().points_earned
    }
}

/// How many feedback entries are marked correct.
pub open spec fn count_correct(fs: Seq<Feedback>) -> int
    decreases fs.len(),
{
    if fs.len() == 0 {
        0
    } else {
        count_correct(fs.drop_last()) + if fs.last().correct {
            1int
        } else {
            0int
        }
    }
}

proof fn lemma_sum_earned_take(fs: Seq<Feedback>, i: int)
    requires
        0 <= i < fs.len(),
    ensures
        sum_earned(fs.take(i + 1)) == sum_earned(fs.take(i)) + fs[i].points_earned,
        count_correct(fs.take(i + 1)) == count_correct(fs.take(i)) + if fs[i].correct {
            1int
        } else {
            0int
        },
{
    assert(fs.take(i + 1).drop_last() =~= fs.take(i));
    assert(fs.take(i + 1).last() == fs[i]);
}

proof fn lemma_sum_earned_bounds(fs: Seq<Feedback>, i: int)
    requires
        0 <= i <= fs.len(),
    ensures
        sum_earned(fs.take(i)) <= sum_earned(fs),
        0 <= count_correct(fs.take(i)) <= i,
    decreases fs.len() - i, i,
{
    if i < fs.len() {
        lemma_sum_earned_take(fs, i);
        lemma_sum_earned_bounds(fs, i + 1);
    } else {
        assert(fs.take(i) =~= fs);
    }
    if i > 0 {
        lemma_sum_earned_take(fs, i - 1);
        lemma_sum_earned_bounds_prefix(fs, i);
    }
}

proof fn lemma_sum_earned_bounds_prefix(fs: Seq<Feedback>, i: int)
    requires
        0 <= i <= fs.len(),
    ensures
        0 <= count_correct(fs.take(i)) <= i,
    decreases i,
{
    if i > 0 {
        lemma_sum_earned_take(fs, i - 1);
        lemma_sum_earned_bounds_prefix(fs, i - 1);
    } else {
        assert(fs.take(0) =~= Seq::<Feedback>::empty());
    }
}

/// Add up the points earned in a feedback slice.
fn sum_feedback_points(feedback: &[Feedback]) -> (r: u32)
    requires
        sum_earned(feedback@) <= u32::MAX,
    ensures
        r == sum_earned(feedback@),
{
    let n = feedback.len();
    let mut total: u32 = 0;
    let mut i: usize = 0;
    while i < n
        invariant
            i <= n,
            n == feedback@.len(),
            total == sum_earned(feedback@.take(i as int)),
            sum_earned(feedback@) <= u32::MAX,
        decreases n - i,
    {
        proof {
            lemma_sum_earned_take(feedback@, i as int);
            lemma_sum_earned_bounds(feedback@, i + 1);
            lemma_nonneg_sum(feedback@, i + 1);
        }
        total = total + feedback[i].points_earned;
        i = i + 1;
    }
    proof {
        assert(feedback@.take(n as int) =~= feedback@);
    }
    total
}

proof fn lemma_nonneg_sum(fs: Seq<Feedback>, i: int)
    requires
        0 <= i <= fs.len(),
    ensures
        sum_earned(fs.take(i)) >= 0,
    decreases i,
{
    if i > 0 {
        lemma_sum_earned_take(fs, i - 1);
        lemma_nonneg_sum(fs, i - 1);
    } else {
        assert(fs.take(0) =~= Seq::<Feedback>::empty());
    }
}

/// Count the correct entries in a feedback slice.
fn count_correct_exec(feedback: &[Feedback]) -> (r: usize)
    ensures
        r == count_correct(feedback@),
{
    let n = feedback.len();
    let mut count: usize = 0;
    let mut i: usize = 0;
    while i < n
        invariant
            i <= n,
            n == feedback@.len(),
            count == count_correct(feedback@.take(i as int)),
            count <= i,
        decreases n - i,
    {
        proof {
            lemma_sum_earned_take(feedback@, i as int);
        }
        if feedback[i].correct {
            count = count + 1;
        }
        i = i + 1;
    }
    proof {
        assert(feedback@.take(n as int) =~= feedback@);
    }
    count
}

} // verus!
