//! Progress tracking types.
//!
//! Tracks learner progress across courses, quizzes, and labs.  Progress
//! records are keyed by identifier in insertion-ordered vectors whose keys
//! stay unique, and quiz scores are exact per-mille values.

use vstd::prelude::*;

use crate::ids::{CourseId, LabId, ModuleId, QuizId};

verus! {

/// A unique identifier for a learner.
#[derive(Debug, Clone, Eq, Hash)]
pub struct LearnerId(pub String);

impl View for LearnerId {
    type V = Seq<char>;

    open spec fn view(&self) -> Seq<char> {
        self.0@
    }
}

impl LearnerId {
    /// Create a new learner ID.
    pub fn new(id: &str) -> (r: Self)
        ensures
            r@ == id@,
    {
        LearnerId(id.to_owned())
    }

    /// Get the inner string value.
    pub fn as_str(&self) -> (r: &str)
        ensures
            r@ == self@,
    {
        self.0.as_str()
    }
}

impl PartialEq for LearnerId {
    fn eq(&self, other: &Self) -> (r: bool) {
        self.0 == other.0
    }
}

impl vstd::std_specs::cmp::PartialEqSpecImpl for LearnerId {
    open spec fn obeys_eq_spec() -> bool {
        true
    }

    open spec fn eq_spec(&self, other: &Self) -> bool {
        self.0@ == other.0@
    }
}

impl<'a> From<&'a str> for LearnerId {
    fn from(s: &'a str) -> (r: Self)
        ensures
            r@ == s@,
    {
        LearnerId::new(s)
    }
}

impl<'a> vstd::std_specs::convert::FromSpecImpl<&'a str> for LearnerId {
    open spec fn obeys_from_spec() -> bool {
        false
    }

    open spec fn from_spec(s: &'a str) -> Self {
        arbitrary()
    }
}

impl From<String> for LearnerId {
    fn from(s: String) -> (r: Self)
        ensures
            r@ == s@,
    {
        LearnerId(s)
    }
}

impl vstd::std_specs::convert::FromSpecImpl<String> for LearnerId {
    open spec fn obeys_from_spec() -> bool {
        true
    }

    open spec fn from_spec(s: String) -> Self {
        LearnerId(s)
    }
}

/// Timestamp in milliseconds since Unix epoch.
#[derive(Debug, Clone, Copy, PartialEq, Eq, PartialOrd, Ord, Hash, Structural)]
pub struct Timestamp(pub u64);

impl Timestamp {
    /// Create a timestamp from milliseconds.
    pub fn from_millis(millis: u64) -> (r: Self)
        ensures
            r.0 == millis,
    {
        Timestamp(millis)
    }

    /// Get the value in milliseconds.
    pub fn as_millis(&self) -> (r: u64)
        ensures
            r == self.0,
    {
        self.0
    }
}

impl Default for Timestamp {
    /// The default timestamp is the epoch itself.
    fn default() -> (r: Self)
        ensures
            r.0 == 0,
    {
        Timestamp(0)
    }
}

/// The first index whose course progress is for the given course, or -1.
pub open spec fn find_course_idx(cs: Seq<CourseProgress>, id: Seq<char>) -> int
    decreases cs.len(),
{
    if cs.len() == 0 {
        -1
    } else if cs[0].course_id@ == id {
        0
    } else {
        let rest = find_course_idx(cs.skip(1), id);
        if rest < 0 {
            -1
        } else {
            rest + 1
        }
    }
}

proof fn lemma_find_course_idx(cs: Seq<CourseProgress>, id: Seq<char>)
    ensures
        find_course_idx(cs, id) == -1 ==> forall|k: int|
            0 <= k < cs.len() ==> (#[trigger] cs[k]).course_id@ != id,
        find_course_idx(cs, id) != -1 ==> {
            let fi = find_course_idx(cs, id);
            &&& 0 <= fi < cs.len()
            &&& cs[fi].course_id@ == id
            &&& forall|k: int| 0 <= k < fi ==> (#[trigger] cs[k]).course_id@ != id
        },
    decreases cs.len(),
{
    if cs.len() > 0 && cs[0].course_id@ != id {
        lemma_find_course_idx(cs.skip(1), id);
        let rest = find_course_idx(cs.skip(1), id);
        if rest == -1 {
            assert forall|k: int| 0 <= k < cs.len() implies (#[trigger] cs[k]).course_id@
                != id by {
                if k > 0 {
                    assert(cs.skip(1)[k - 1].course_id@ != id);
                }
            }
        } else {
            assert(cs[rest + 1] == cs.skip(1)[rest]);
            assert forall|k: int| 0 <= k < rest + 1 implies (#[trigger] cs[k]).course_id@
                != id by {
                if k > 0 {
                    assert(cs.skip(1)[k - 1].course_id@ != id);
                }
            }
        }
    }
}

/// How many course records are marked completed.
pub open spec fn count_completed(cs: Seq<CourseProgress>) -> int
    decreases cs.len(),
{
    if cs.len() == 0 {
        0
    } else {
        count_completed(cs.drop_last()) + (if cs.last().status == CourseStatus::Completed {
            1int
        } else {
            0int
        })
    }
}

/// Learner progress across all courses.
#[derive(Debug, Clone, PartialEq)]
pub struct LearnerProgress {
    /// Learner identifier
    pub learner_id: LearnerId,
    /// Progress for each course, in the order the courses were started,
    /// one record per course
    pub courses: Vec<CourseProgress>,
    /// Total experience points earned
    pub total_xp: u64,
    /// Current streak in days
    pub streak_days: u32,
    /// Timestamp of last activity
    pub last_activity: Timestamp,
}

impl LearnerProgress {
    /// Create a new learner progress record.
    pub fn new(learner_id: &str) -> (r: Self)
        ensures
            r.learner_id@ == learner_id@,
            r.courses@ == Seq::<CourseProgress>::empty(),
            r.total_xp == 0,
            r.streak_days == 0,
            r.last_activity.0 == 0,
    {
        LearnerProgress {
            learner_id: LearnerId::new(learner_id),
            courses: Vec::new(),
            total_xp: 0,
            streak_days: 0,
            last_activity: Timestamp(0),
        }
    }

    /// Get progress for a specific course.
    pub fn course_progress(&self, course_id: &CourseId) -> (r: Option<&CourseProgress>)
        ensures
            (match r {
                Some(cp) => find_course_idx(self.courses@, course_id@) >= 0 && cp
                    == &self.courses@[find_course_idx(self.courses@, course_id@)],
                None => find_course_idx(self.courses@, course_id@) == -1,
            }),
    {
        proof {
            lemma_find_course_idx(self.courses@, course_id@);
        }
        let n = self.courses.len();
        let mut i: usize = 0;
        while i < n
            invariant
                i <= n,
                n == self.courses@.len(),
                forall|k: int|
                    0 <= k < i ==> (#[trigger] self.courses@[k]).course_id@ != course_id@,
            decreases n - i,
        {
            if crate::strutil::str_eq(self.courses[i].course_id.as_str(), course_id.as_str()) {
                proof {
                    lemma_find_course_idx(self.courses@, course_id@);
                    let fi = find_course_idx(self.courses@, course_id@);
                    if fi == -1 {
                        assert(self.courses@[i as int].course_id@ != course_id@);
                    } else if fi < i {
                        assert(self.courses@[fi].course_id@ != course_id@);
                    } else if fi > i {
                        assert(self.courses@[i as int].course_id@ != course_id@);
                    }
                }
                return Some(&self.courses[i]);
            }
            i = i + 1;
        }
        proof {
            if find_course_idx(self.courses@, course_id@) != -1 {
                assert(self.courses@[find_course_idx(self.courses@, course_id@)].course_id@
                    == course_id@);
            }
        }
        None
    }

    /// Start a new course, replacing any earlier record for the same
    /// course with a fresh one.
    pub fn start_course(&mut self, course_id: CourseId, now: Timestamp)
        ensures
            final (self).learner_id == old(self).learner_id,
            final (self).total_xp == old(self).total_xp,
            final (self).streak_days == old(self).streak_days,
            final (self).last_activity == now,
            ({
                let fi = find_course_idx(old(self).courses@, course_id@);
                let fresh = final (self).courses@[if fi >= 0 {
                    fi
                } else {
                    old(self).courses@.len() as int
                }];
                &&& (if fi >= 0 {
                    final (self).courses@ == old(self).courses@.update(fi, fresh)
                } else {
                    final (self).courses@ == old(self).courses@.push(fresh)
                })
                &&& fresh.course_id == course_id
                &&& fresh.status == CourseStatus::InProgress
                &&& fresh.modules_completed@ == Seq::<ModuleId>::empty()
                &&& fresh.current_module is None
                &&& fresh.quiz_scores@ == Seq::<(String, Vec<QuizAttempt>)>::empty()
                &&& fresh.lab_completions@ == Seq::<(String, LabCompletion)>::empty()
                &&& fresh.started_at == now
                &&& fresh.completed_at is None
            }),
    {
        proof {
            lemma_find_course_idx(self.courses@, course_id@);
        }
        let n = self.courses.len();
        let mut i: usize = 0;
        let mut found: bool = false;
        while i < n && !found
            invariant
                i <= n,
                n == self.courses@.len(),
                !found ==> forall|k: int|
                    0 <= k < i ==> (#[trigger] self.courses@[k]).course_id@ != course_id@,
                found ==> i < n && self.courses@[i as int].course_id@ == course_id@ && (forall|
                    k: int,
                |
                    0 <= k < i ==> (#[trigger] self.courses@[k]).course_id@ != course_id@),
            decreases n - i + (if found { 0int } else { 1int }),
        {
            if crate::strutil::str_eq(self.courses[i].course_id.as_str(), course_id.as_str()) {
                found = true;
            } else {
                i = i + 1;
            }
        }
        proof {
            let fi = find_course_idx(self.courses@, course_id@);
            if found {
                if fi == -1 {
                    assert(self.courses@[i as int].course_id@ != course_id@);
                } else if fi < i {
                    assert(self.courses@[fi].course_id@ != course_id@);
                } else if fi > i {
                    assert(self.courses@[i as int].course_id@ != course_id@);
                }
            } else {
                if fi != -1 {
                    assert(self.courses@[fi].course_id@ == course_id@);
                }
            }
        }
        let progress = CourseProgress::new(course_id, now);
        if found {
            self.courses.set(i, progress);
        } else {
            self.courses.push(progress);
        }
        self.last_activity = now;
    }

    /// Add XP and update last activity.  The total saturates rather than
    /// wrapping.
    pub fn add_xp(&mut self, xp: u64, now: Timestamp)
        ensures
            final (self).total_xp == if old(self).total_xp + xp > u64::MAX {
                u64::MAX as int
            } else {
                old(self).total_xp + xp
            },
            final (self).last_activity == now,
            final (self).learner_id == old(self).learner_id,
            final (self).courses == old(self).courses,
            final (self).streak_days == old(self).streak_days,
    {
        if xp > u64::MAX - self.total_xp {
            self.total_xp = u64::MAX;
        } else {
            self.total_xp = self.total_xp + xp;
        }
        self.last_activity = now;
    }

    /// Get the number of courses in progress or completed.
    pub fn course_count(&self) -> (r: usize)
        ensures
            r == self.courses@.len(),
    {
        self.courses.len()
    }

    /// Get the number of completed courses.
    pub fn completed_courses(&self) -> (r: usize)
        ensures
            r == count_completed(self.courses@),
    {
        let n = self.courses.len();
        let mut count: usize = 0;
        let mut i: usize = 0;
        proof {
            assert(self.courses@.take(0) =~= Seq::<CourseProgress>::empty());
        }
        while i < n
            invariant
                i <= n,
                n == self.courses@.len(),
                count == count_completed(self.courses@.take(i as int)),
                count <= i,
            decreases n - i,
        {
            proof {
                assert(self.courses@.take(i + 1).drop_last() =~= self.courses@.take(i as int));
                assert(self.courses@.take(i + 1).last() == self.courses@[i as int]);
            }
            if self.courses[i].status == CourseStatus::Completed {
                count = count + 1;
            }
            i = i + 1;
        }
        proof {
            assert(self.courses@.take(n as int) =~= self.courses@);
        }
        count
    }
}

/// The first index of a keyed entry with the given key, or -1.
pub open spec fn find_key_idx<T>(es: Seq<(String, T)>, key: Seq<char>) -> int
    decreases es.len(),
{
    if es.len() == 0 {
        -1
    } else if es[0].0@ == key {
        0
    } else {
        let rest = find_key_idx(es.skip(1), key);
        if rest < 0 {
            -1
        } else {
            rest + 1
        }
    }
}

proof fn lemma_find_key_idx<T>(es: Seq<(String, T)>, key: Seq<char>)
    ensures
        find_key_idx(es, key) == -1 ==> forall|k: int|
            0 <= k < es.len() ==> (#[trigger] es[k]).0@ != key,
        find_key_idx(es, key) != -1 ==> {
            let fi = find_key_idx(es, key);
            &&& 0 <= fi < es.len()
            &&& es[fi].0@ == key
            &&& forall|k: int| 0 <= k < fi ==> (#[trigger] es[k]).0@ != key
        },
    decreases es.len(),
{
    if es.len() > 0 && es[0].0@ != key {
        lemma_find_key_idx(es.skip(1), key);
        let rest = find_key_idx(es.skip(1), key);
        if rest == -1 {
            assert forall|k: int| 0 <= k < es.len() implies (#[trigger] es[k]).0@ != key by {
                if k > 0 {
                    assert(es.skip(1)[k - 1].0@ != key);
                }
            }
        } else {
            assert(es[rest + 1] == es.skip(1)[rest]);
            assert forall|k: int| 0 <= k < rest + 1 implies (#[trigger] es[k]).0@ != key by {
                if k > 0 {
                    assert(es.skip(1)[k - 1].0@ != key);
                }
            }
        }
    }
}

/// The largest attempt score in a sequence, or -1 when it is empty.
pub open spec fn max_attempt_score(ats: Seq<QuizAttempt>) -> int
    decreases ats.len(),
{
    if ats.len() == 0 {
        -1
    } else {
        let prev = max_attempt_score(ats.drop_last());
        if ats.last().score > prev {
            ats.last().score as int
        } else {
            prev
        }
    }
}

/// Progress within a single course.
#[derive(Debug, Clone, PartialEq)]
pub struct CourseProgress {
    /// Course identifier
    pub course_id: CourseId,
    /// Current status
    pub status: CourseStatus,
    /// Completed module IDs
    pub modules_completed: Vec<ModuleId>,
    /// Current module being worked on
    pub current_module: Option<ModuleId>,
    /// Quiz attempts, keyed by quiz id with unique keys
    pub quiz_scores: Vec<(String, Vec<QuizAttempt>)>,
    /// Lab completions, keyed by lab id with unique keys
    pub lab_completions: Vec<(String, LabCompletion)>,
    /// When the course was started
    pub started_at: Timestamp,
    /// When the course was completed (if completed)
    pub completed_at: Option<Timestamp>,
}

impl CourseProgress {
    /// Create a new course progress record.
    pub fn new(course_id: CourseId, started_at: Timestamp) -> (r: Self)
        ensures
            r.course_id == course_id,
            r.status == CourseStatus::InProgress,
            r.modules_completed@ == Seq::<ModuleId>::empty(),
            r.current_module is None,
            r.quiz_scores@ == Seq::<(String, Vec<QuizAttempt>)>::empty(),
            r.lab_completions@ == Seq::<(String, LabCompletion)>::empty(),
            r.started_at == started_at,
            r.completed_at is None,
    {
        CourseProgress {
            course_id,
            status: CourseStatus::InProgress,
            modules_completed: Vec::new(),
            current_module: None,
            quiz_scores: Vec::new(),
            lab_completions: Vec::new(),
            started_at,
            completed_at: None,
        }
    }

    /// Mark a module as completed.  A module already recorded is not
    /// recorded twice.
    pub fn complete_module(&mut self, module_id: ModuleId)
        ensures
            *final (self) == (CourseProgress {
                modules_completed: final (self).modules_completed,
                ..*old(self)
            }),
            (if exists|k: int|
                0 <= k < old(self).modules_completed@.len() && (#[trigger] old(
                    self,
                ).modules_completed@[k])@ == module_id@ {
                final (self).modules_completed@ == old(self).modules_completed@
            } else {
                final (self).modules_completed@ == old(self).modules_completed@.push(module_id)
            }),
    {
        let n = self.modules_completed.len();
        let mut i: usize = 0;
        let mut present: bool = false;
        while i < n && !present
            invariant
                i <= n,
                n == self.modules_completed@.len(),
                !present ==> forall|k: int|
                    0 <= k < i ==> (#[trigger] self.modules_completed@[k])@ != module_id@,
                present ==> i < n && (self.modules_completed@[i as int])@ == module_id@,
            decreases n - i + (if present { 0int } else { 1int }),
        {
            if crate::strutil::str_eq(self.modules_completed[i].as_str(), module_id.as_str()) {
                present = true;
            } else {
                i = i + 1;
            }
        }
        if !present {
            self.modules_completed.push(module_id);
        }
    }

    /// Set the current module.
    pub fn set_current_module(&mut self, module_id: ModuleId)
        ensures
            *final (self) == (CourseProgress {
                current_module: Some(module_id),
                ..*old(self)
            }),
    {
        self.current_module = Some(module_id);
    }

    /// Record a quiz attempt, appending to the quiz's attempt list.
    pub fn record_quiz_attempt(&mut self, quiz_id: &QuizId, attempt: QuizAttempt)
        ensures
            *final (self) == (CourseProgress { quiz_scores: final (self).quiz_scores, ..*old(self) }),
            ({
                let fi = find_key_idx(old(self).quiz_scores@, quiz_id@);
                if fi >= 0 {
                    final (self).quiz_scores@.len() == old(self).quiz_scores@.len() && final (
                    self).quiz_scores@[fi].0 == old(self).quiz_scores@[fi].0 && final (
                    self).quiz_scores@[fi].1@ == old(self).quiz_scores@[fi].1@.push(attempt) && (
                    forall|k: int|
                        0 <= k < old(self).quiz_scores@.len() && k != fi ==> final (
                        self).quiz_scores@[k] == old(self).quiz_scores@[k])
                } else {
                    final (self).quiz_scores@.len() == old(self).quiz_scores@.len() + 1 && final (
                    self).quiz_scores@.last().0@ == quiz_id@ && final (
                    self).quiz_scores@.last().1@ == seq![attempt] && (forall|k: int|
                        0 <= k < old(self).quiz_scores@.len() ==> final (self).quiz_scores@[k]
                            == old(self).quiz_scores@[k])
                }
            }),
    {
        proof {
            lemma_find_key_idx(self.quiz_scores@, quiz_id@);
        }
        let n = self.quiz_scores.len();
        let mut i: usize = 0;
        let mut found: bool = false;
        while i < n && !found
            invariant
                i <= n,
                n == self.quiz_scores@.len(),
                !found ==> forall|k: int|
                    0 <= k < i ==> (#[trigger] self.quiz_scores@[k]).0@ != quiz_id@,
                found ==> i < n && self.quiz_scores@[i as int].0@ == quiz_id@ && (forall|k: int|
                    0 <= k < i ==> (#[trigger] self.quiz_scores@[k]).0@ != quiz_id@),
            decreases n - i + (if found { 0int } else { 1int }),
        {
            if crate::strutil::str_eq(self.quiz_scores[i].0.as_str(), quiz_id.as_str()) {
                found = true;
            } else {
                i = i + 1;
            }
        }
        proof {
            let fi = find_key_idx(self.quiz_scores@, quiz_id@);
            if found {
                if fi == -1 {
                    assert(self.quiz_scores@[i as int].0@ != quiz_id@);
                } else if fi < i {
                    assert(self.quiz_scores@[fi].0@ != quiz_id@);
                } else if fi > i {
                    assert(self.quiz_scores@[i as int].0@ != quiz_id@);
                }
            } else {
                if fi != -1 {
                    assert(self.quiz_scores@[fi].0@ == quiz_id@);
                }
            }
        }
        if found {
            let key = self.quiz_scores[i].0.clone();
            let m = self.quiz_scores[i].1.len();
            let mut attempts: Vec<QuizAttempt> = Vec::new();
            let mut j: usize = 0;
            while j < m
                invariant
                    j <= m,
                    i < self.quiz_scores@.len(),
                    m == self.quiz_scores@[i as int].1@.len(),
                    attempts@ == self.quiz_scores@[i as int].1@.take(j as int),
                decreases m - j,
            {
                attempts.push(self.quiz_scores[i].1[j]);
                proof {
                    assert(attempts@ =~= self.quiz_scores@[i as int].1@.take(j + 1));
                }
                j = j + 1;
            }
            proof {
                assert(self.quiz_scores@[i as int].1@.take(m as int) =~= self.quiz_scores@[
                    i as int
                ].1@);
            }
            attempts.push(attempt);
            self.quiz_scores.set(i, (key, attempts));
        } else {
            let mut attempts: Vec<QuizAttempt> = Vec::new();
            attempts.push(attempt);
            proof {
                assert(attempts@ =~= seq![attempt]);
            }
            self.quiz_scores.push((quiz_id.as_str().to_owned(), attempts));
        }
    }

    /// Record a lab completion, replacing any earlier record for the lab.
    pub fn record_lab_completion(&mut self, lab_id: &LabId, completion: LabCompletion)
        ensures
            *final (self) == (CourseProgress {
                lab_completions: final (self).lab_completions,
                ..*old(self)
            }),
            ({
                let fi = find_key_idx(old(self).lab_completions@, lab_id@);
                if fi >= 0 {
                    final (self).lab_completions@.len() == old(self).lab_completions@.len()
                        && final (self).lab_completions@[fi].0 == old(self).lab_completions@[fi].0
                        && final (self).lab_completions@[fi].1 == completion && (forall|k: int|
                        0 <= k < old(self).lab_completions@.len() && k != fi ==> final (
                        self).lab_completions@[k] == old(self).lab_completions@[k])
                } else {
                    final (self).lab_completions@.len() == old(self).lab_completions@.len() + 1
                        && final (self).lab_completions@.last().0@ == lab_id@ && final (
                    self).lab_completions@.last().1 == completion && (forall|k: int|
                        0 <= k < old(self).lab_completions@.len() ==> final (
                        self).lab_completions@[k] == old(self).lab_completions@[k])
                }
            }),
    {
        proof {
            lemma_find_key_idx(self.lab_completions@, lab_id@);
        }
        let n = self.lab_completions.len();
        let mut i: usize = 0;
        let mut found: bool = false;
        while i < n && !found
            invariant
                i <= n,
                n == self.lab_completions@.len(),
                !found ==> forall|k: int|
                    0 <= k < i ==> (#[trigger] self.lab_completions@[k]).0@ != lab_id@,
                found ==> i < n && self.lab_completions@[i as int].0@ == lab_id@ && (forall|k: int|
                    0 <= k < i ==> (#[trigger] self.lab_completions@[k]).0@ != lab_id@),
            decreases n - i + (if found { 0int } else { 1int }),
        {
            if crate::strutil::str_eq(self.lab_completions[i].0.as_str(), lab_id.as_str()) {
                found = true;
            } else {
                i = i + 1;
            }
        }
        proof {
            let fi = find_key_idx(self.lab_completions@, lab_id@);
            if found {
                if fi == -1 {
                    assert(self.lab_completions@[i as int].0@ != lab_id@);
                } else if fi < i {
                    assert(self.lab_completions@[fi].0@ != lab_id@);
                } else if fi > i {
                    assert(self.lab_completions@[i as int].0@ != lab_id@);
                }
            } else {
                if fi != -1 {
                    assert(self.lab_completions@[fi].0@ == lab_id@);
                }
            }
        }
        if found {
            let key = self.lab_completions[i].0.clone();
            self.lab_completions.set(i, (key, completion));
        } else {
            self.lab_completions.push((lab_id.as_str().to_owned(), completion));
        }
    }

    /// Get the best score for a quiz, in per-mille, or nothing when the
    /// quiz has not been attempted.
    pub fn best_quiz_score(&self, quiz_id: &QuizId) -> (r: Option<u32>)
        ensures
            ({
                let fi = find_key_idx(self.quiz_scores@, quiz_id@);
                match r {
                    Some(best) => fi >= 0 && best == max_attempt_score(self.quiz_scores@[fi].1@),
                    None => fi == -1 || max_attempt_score(self.quiz_scores@[fi].1@) == -1,
                }
            }),
    {
        proof {
            lemma_find_key_idx(self.quiz_scores@, quiz_id@);
        }
        let n = self.quiz_scores.len();
        let mut i: usize = 0;
        while i < n
            invariant
                i <= n,
                n == self.quiz_scores@.len(),
                forall|k: int| 0 <= k < i ==> (#[trigger] self.quiz_scores@[k]).0@ != quiz_id@,
            decreases n - i,
        {
            if crate::strutil::str_eq(self.quiz_scores[i].0.as_str(), quiz_id.as_str()) {
                proof {
                    lemma_find_key_idx(self.quiz_scores@, quiz_id@);
                    let fi = find_key_idx(self.quiz_scores@, quiz_id@);
                    if fi == -1 {
                        assert(self.quiz_scores@[i as int].0@ != quiz_id@);
                    } else if fi < i {
                        assert(self.quiz_scores@[fi].0@ != quiz_id@);
                    } else if fi > i {
                        assert(self.quiz_scores@[i as int].0@ != quiz_id@);
                    }
                }
                let attempts = &self.quiz_scores[i].1;
                let m = attempts.len();
                if m == 0 {
                    return None;
                }
                let mut best: u32 = 0;
                let mut first: bool = true;
                let mut j: usize = 0;
                proof {
                    assert(attempts@.take(0) =~= Seq::<QuizAttempt>::empty());
                }
                while j < m
                    invariant
                        j <= m,
                        m == attempts@.len(),
                        first ==> j == 0,
                        !first ==> j > 0 && best == max_attempt_score(attempts@.take(j as int)),
                    decreases m - j,
                {
                    proof {
                        assert(attempts@.take(j + 1).drop_last() =~= attempts@.take(j as int));
                        assert(attempts@.take(j + 1).last() == attempts@[j as int]);
                        lemma_max_attempt_nonneg(attempts@.take(j as int));
                    }
                    let s = attempts[j].score;
                    if first {
                        best = s;
                        first = false;
                    } else if s > best {
                        best = s;
                    }
                    j = j + 1;
                }
                proof {
                    assert(attempts@.take(m as int) =~= attempts@);
                }
                return Some(best);
            }
            i = i + 1;
        }
        proof {
            if find_key_idx(self.quiz_scores@, quiz_id@) != -1 {
                assert(self.quiz_scores@[find_key_idx(self.quiz_scores@, quiz_id@)].0@
                    == quiz_id@);
            }
        }
        None
    }

    /// Mark the course as completed.
    pub fn complete(&mut self, now: Timestamp)
        ensures
            *final (self) == (CourseProgress {
                status: CourseStatus::Completed,
                completed_at: Some(now),
                ..*old(self)
            }),
    {
        self.status = CourseStatus::Completed;
        self.completed_at = Some(now);
    }

    /// The fraction of modules completed, in per-mille of `total_modules`
    /// (rounded down, saturating, and zero when no modules exist).
    pub fn completion_percentage(&self, total_modules: usize) -> (r: u32)
        ensures
            r == (if total_modules == 0 {
                0int
            } else if self.modules_completed@.len() as int * 1000 / total_modules as int > u32::MAX {
                u32::MAX as int
            } else {
                self.modules_completed@.len() as int * 1000 / total_modules as int
            }),
    {
        if total_modules == 0 {
            return 0;
        }
        let v: u128 = (self.modules_completed.len() as u128 * 1000) / (total_modules as u128);
        if v > u32::MAX as u128 {
            u32::MAX
        } else {
            v as u32
        }
    }
}

proof fn lemma_max_attempt_nonneg(ats: Seq<QuizAttempt>)
    ensures
        ats.len() > 0 ==> max_attempt_score(ats) >= 0,
        max_attempt_score(ats) >= -1,
    decreases ats.len(),
{
    if ats.len() > 0 {
        lemma_max_attempt_nonneg(ats.drop_last());
    }
}

/// Status of a course.
#[derive(Debug, Clone, Copy, PartialEq, Eq, Hash, Structural)]
pub enum CourseStatus {
    /// Not started yet
    NotStarted,
    /// Currently in progress
    InProgress,
    /// Completed successfully
    Completed,
    /// Abandoned by the learner
    Abandoned,
}

impl Default for CourseStatus {
    /// The default status is NotStarted.
    fn default() -> (r: Self)
        ensures
            r == CourseStatus::NotStarted,
    {
        CourseStatus::NotStarted
    }
}

impl CourseStatus {
    /// Check if the course is active.
    pub fn is_active(&self) -> (r: bool)
        ensures
            r == (self == CourseStatus::InProgress),
    {
        matches!(self, CourseStatus::InProgress)
    }

    /// Check if the course is finished (completed or abandoned).
    pub fn is_finished(&self) -> (r: bool)
        ensures
            r == (self == CourseStatus::Completed || self == CourseStatus::Abandoned),
    {
        matches!(self, CourseStatus::Completed | CourseStatus::Abandoned)
    }
}

/// A single quiz attempt.
#[derive(Debug, Clone, Copy, PartialEq, Eq, Structural)]
pub struct QuizAttempt {
    /// Score in per-mille (0 ..= 1000)
    pub score: u32,
    /// Duration in seconds
    pub duration_secs: u32,
    /// When the attempt was made
    pub attempted_at: Timestamp,
    /// Whether the attempt passed
    pub passed: bool,
}

impl QuizAttempt {
    /// Create a new quiz attempt with the score clamped to 0 ..= 1000.
    pub fn new(score: u32, duration_secs: u32, attempted_at: Timestamp, passed: bool) -> (r: Self)
        ensures
            r.score == if score > 1000 {
                1000u32
            } else {
                score
            },
            r.duration_secs == duration_secs,
            r.attempted_at == attempted_at,
            r.passed == passed,
    {
        let clamped: u32 = if score > 1000 {
            1000
        } else {
            score
        };
        QuizAttempt { score: clamped, duration_secs, attempted_at, passed }
    }
}

/// A lab completion record.
#[derive(Debug, Clone, PartialEq, Eq, Structural)]
pub struct LabCompletion {
    /// Whether all tests passed
    pub all_tests_passed: bool,
    /// Number of tests passed
    pub tests_passed: u32,
    /// Total number of tests
    pub tests_total: u32,
    /// Time spent in seconds
    pub time_spent_secs: u32,
    /// When the lab was completed
    pub completed_at: Timestamp,
}

impl LabCompletion {
    /// Create a new lab completion.
    pub fn new(
        tests_passed: u32,
        tests_total: u32,
        time_spent_secs: u32,
        completed_at: Timestamp,
    ) -> (r: Self)
        ensures
            r.all_tests_passed == (tests_passed == tests_total),
            r.tests_passed == tests_passed,
            r.tests_total == tests_total,
            r.time_spent_secs == time_spent_secs,
            r.completed_at == completed_at,
    {
        LabCompletion {
            all_tests_passed: tests_passed == tests_total,
            tests_passed,
            tests_total,
            time_spent_secs,
            completed_at,
        }
    }

    /// The test pass rate in per-mille (rounded down, zero when no tests
    /// were run).
    pub fn pass_rate(&self) -> (r: u32)
        ensures
            r == (if self.tests_total == 0 {
                0int
            } else if self.tests_passed as int * 1000 / self.tests_total as int > u32::MAX {
                u32::MAX as int
            } else {
                self.tests_passed as int * 1000 / self.tests_total as int
            }),
    {
        if self.tests_total == 0 {
            return 0;
        }
        let v: u64 = (self.tests_passed as u64 * 1000) / (self.tests_total as u64);
        if v > u32::MAX as u64 {
            u32::MAX
        } else {
            v as u32
        }
    }
}

} // verus!
