//! Course structure types.
//!
//! Defines the hierarchical structure of courses: Course → Module → Lesson.

use vstd::prelude::*;

use crate::ids::{CourseId, LessonId, ModuleId, QuizId, SimulationId};
use crate::lab::{Lab, Language};
use crate::quiz::Quiz;

verus! {

/// A complete course (e.g., "Rust Fundamentals").
///
/// Courses are the top-level container for learning content, consisting
/// of multiple modules that are completed sequentially.
#[derive(Debug, Clone, PartialEq)]
pub struct Course {
    /// Unique identifier for this course
    pub id: CourseId,
    /// Human-readable title
    pub title: String,
    /// Course description
    pub description: String,
    /// Difficulty level
    pub level: CourseLevel,
    /// Ordered list of modules
    pub modules: Vec<Module>,
    /// Courses that must be completed before this one
    pub prerequisites: Vec<CourseId>,
    /// Estimated time to complete in hours
    pub estimated_hours: u32,
}

/// Total number of lessons over a sequence of modules.
pub open spec fn sum_lessons(ms: Seq<Module>) -> int
    decreases ms.len(),
{
    if ms.len() == 0 {
        0
    } else {
        sum_lessons(ms.drop_last()) + ms.last().lessons@.len()
    }
}

/// How many modules of a sequence carry a quiz.
pub open spec fn count_quizzes(ms: Seq<Module>) -> int
    decreases ms.len(),
{
    if ms.len() == 0 {
        0
    } else {
        count_quizzes(ms.drop_last()) + (if ms.last().quiz is Some {
            1int
        } else {
            0int
        })
    }
}

/// Total duration in minutes over a sequence of lessons.
pub open spec fn sum_duration(ls: Seq<Lesson>) -> int
    decreases ls.len(),
{
    if ls.len() == 0 {
        0
    } else {
        sum_duration(ls.drop_last()) + ls.last().duration_minutes
    }
}

proof fn lemma_sum_lessons_step(ms: Seq<Module>, i: int)
    requires
        0 <= i < ms.len(),
    ensures
        sum_lessons(ms.take(i + 1)) == sum_lessons(ms.take(i)) + ms[i].lessons@.len(),
        count_quizzes(ms.take(i + 1)) == count_quizzes(ms.take(i)) + (if ms[i].quiz is Some {
            1int
        } else {
            0int
        }),
{
    assert(ms.take(i + 1).drop_last() =~= ms.take(i));
    assert(ms.take(i + 1).last() == ms[i]);
}

proof fn lemma_sum_lessons_bound(ms: Seq<Module>, i: int)
    requires
        0 <= i <= ms.len(),
    ensures
        sum_lessons(ms.take(i)) <= sum_lessons(ms),
        0 <= count_quizzes(ms.take(i)) <= i,
        sum_lessons(ms.take(i)) >= 0,
    decreases ms.len() - i, i,
{
    if i < ms.len() {
        lemma_sum_lessons_step(ms, i);
        lemma_sum_lessons_bound(ms, i + 1);
    } else {
        assert(ms.take(i) =~= ms);
    }
    lemma_sum_lessons_prefix(ms, i);
}

proof fn lemma_sum_lessons_prefix(ms: Seq<Module>, i: int)
    requires
        0 <= i <= ms.len(),
    ensures
        0 <= count_quizzes(ms.take(i)) <= i,
        sum_lessons(ms.take(i)) >= 0,
    decreases i,
{
    if i > 0 {
        lemma_sum_lessons_step(ms, i - 1);
        lemma_sum_lessons_prefix(ms, i - 1);
    } else {
        assert(ms.take(0) =~= Seq::<Module>::empty());
    }
}

proof fn lemma_sum_duration_step(ls: Seq<Lesson>, i: int)
    requires
        0 <= i < ls.len(),
    ensures
        sum_duration(ls.take(i + 1)) == sum_duration(ls.take(i)) + ls[i].duration_minutes,
{
    assert(ls.take(i + 1).drop_last() =~= ls.take(i));
    assert(ls.take(i + 1).last() == ls[i]);
}

proof fn lemma_sum_duration_bound(ls: Seq<Lesson>, i: int)
    requires
        0 <= i <= ls.len(),
    ensures
        sum_duration(ls.take(i)) <= sum_duration(ls),
        sum_duration(ls.take(i)) >= 0,
    decreases ls.len() - i, i,
{
    if i < ls.len() {
        lemma_sum_duration_step(ls, i);
        lemma_sum_duration_bound(ls, i + 1);
    } else {
        assert(ls.take(i) =~= ls);
    }
    lemma_sum_duration_prefix(ls, i);
}

proof fn lemma_sum_duration_prefix(ls: Seq<Lesson>, i: int)
    requires
        0 <= i <= ls.len(),
    ensures
        sum_duration(ls.take(i)) >= 0,
    decreases i,
{
    if i > 0 {
        lemma_sum_duration_step(ls, i - 1);
        lemma_sum_duration_prefix(ls, i - 1);
    } else {
        assert(ls.take(0) =~= Seq::<Lesson>::empty());
    }
}

impl Course {
    /// Create a new course with required fields.
    pub fn new(id: &str, title: &str) -> (r: Self)
        ensures
            r.id@ == id@,
            r.title@ == title@,
            r.description@ == Seq::<char>::empty(),
            r.level == CourseLevel::Beginner,
            r.modules@ == Seq::<Module>::empty(),
            r.prerequisites@ == Seq::<CourseId>::empty(),
            r.estimated_hours == 0,
    {
        Course {
            id: CourseId::new(id),
            title: title.to_owned(),
            description: String::new(),
            level: CourseLevel::Beginner,
            modules: Vec::new(),
            prerequisites: Vec::new(),
            estimated_hours: 0,
        }
    }

    /// Set the course description.
    pub fn with_description(self, description: &str) -> (r: Self)
        ensures
            r == (Course { description: r.description, ..self }),
            r.description@ == description@,
    {
        Course { description: description.to_owned(), ..self }
    }

    /// Set the course level.
    pub fn with_level(self, level: CourseLevel) -> (r: Self)
        ensures
            r == (Course { level: level, ..self }),
    {
        Course { level: level, ..self }
    }

    /// Add a module to the course.
    pub fn with_module(self, module: Module) -> (r: Self)
        ensures
            r == (Course { modules: r.modules, ..self }),
            r.modules@ == self.modules@.push(module),
    {
        let mut c = self;
        c.modules.push(module);
        c
    }

    /// Set the estimated hours.
    pub fn with_estimated_hours(self, hours: u32) -> (r: Self)
        ensures
            r == (Course { estimated_hours: hours, ..self }),
    {
        Course { estimated_hours: hours, ..self }
    }

    /// Get the total number of lessons in the course.
    pub fn total_lessons(&self) -> (r: usize)
        requires
            sum_lessons(self.modules@) <= usize::MAX,
        ensures
            r == sum_lessons(self.modules@),
    {
        let n = self.modules.len();
        let mut total: usize = 0;
        let mut i: usize = 0;
        proof {
            assert(self.modules@.take(0) =~= Seq::<Module>::empty());
        }
        while i < n
            invariant
                i <= n,
                n == self.modules@.len(),
                total == sum_lessons(self.modules@.take(i as int)),
                sum_lessons(self.modules@) <= usize::MAX,
            decreases n - i,
        {
            proof {
                lemma_sum_lessons_step(self.modules@, i as int);
                lemma_sum_lessons_bound(self.modules@, i + 1);
            }
            total = total + self.modules[i].lessons.len();
            i = i + 1;
        }
        proof {
            assert(self.modules@.take(n as int) =~= self.modules@);
        }
        total
    }

    /// Get the total number of quizzes in the course.
    pub fn total_quizzes(&self) -> (r: usize)
        ensures
            r == count_quizzes(self.modules@),
    {
        let n = self.modules.len();
        let mut total: usize = 0;
        let mut i: usize = 0;
        proof {
            assert(self.modules@.take(0) =~= Seq::<Module>::empty());
        }
        while i < n
            invariant
                i <= n,
                n == self.modules@.len(),
                total == count_quizzes(self.modules@.take(i as int)),
                total <= i,
            decreases n - i,
        {
            proof {
                lemma_sum_lessons_step(self.modules@, i as int);
            }
            let has_quiz = match &self.modules[i].quiz {
                Some(..) => true,
                None => false,
            };
            if has_quiz {
                total = total + 1;
            }
            i = i + 1;
        }
        proof {
            assert(self.modules@.take(n as int) =~= self.modules@);
        }
        total
    }
}

/// Course difficulty level.
#[derive(Debug, Clone, Copy, PartialEq, Eq, Hash, Structural)]
pub enum CourseLevel {
    /// For beginners with no prior experience
    Beginner,
    /// For those with some background knowledge
    Intermediate,
    /// For experienced practitioners
    Advanced,
    /// For domain experts seeking deep knowledge
    Expert,
}

impl Default for CourseLevel {
    /// The default level is Beginner.
    fn default() -> (r: Self)
        ensures
            r == CourseLevel::Beginner,
    {
        CourseLevel::Beginner
    }
}

impl CourseLevel {
    /// Get a human-readable label for the level.
    pub fn label(&self) -> (r: &'static str)
        ensures
            r@ == (match self {
                CourseLevel::Beginner => "Beginner"@,
                CourseLevel::Intermediate => "Intermediate"@,
                CourseLevel::Advanced => "Advanced"@,
                CourseLevel::Expert => "Expert"@,
            }),
    {
        match self {
            CourseLevel::Beginner => "Beginner",
            CourseLevel::Intermediate => "Intermediate",
            CourseLevel::Advanced => "Advanced",
            CourseLevel::Expert => "Expert",
        }
    }
}

/// A module within a course (e.g., "Week 1: Ownership").
///
/// Modules are designed to be a couple of hours each for consistent pacing.
#[derive(Debug, Clone, PartialEq)]
pub struct Module {
    /// Unique identifier for this module
    pub id: ModuleId,
    /// Human-readable title
    pub title: String,
    /// Ordered list of lessons
    pub lessons: Vec<Lesson>,
    /// Optional quiz for this module
    pub quiz: Option<Quiz>,
    /// Optional hands-on lab
    pub lab: Option<Lab>,
    /// Criteria to unlock this module
    pub unlock_criteria: UnlockCriteria,
}

impl Module {
    /// Create a new module with required fields.
    pub fn new(id: &str, title: &str) -> (r: Self)
        ensures
            r.id@ == id@,
            r.title@ == title@,
            r.lessons@ == Seq::<Lesson>::empty(),
            r.quiz is None,
            r.lab is None,
            r.unlock_criteria == UnlockCriteria::NoRequirement,
    {
        Module {
            id: ModuleId::new(id),
            title: title.to_owned(),
            lessons: Vec::new(),
            quiz: None,
            lab: None,
            unlock_criteria: UnlockCriteria::NoRequirement,
        }
    }

    /// Add a lesson to this module.
    pub fn with_lesson(self, lesson: Lesson) -> (r: Self)
        ensures
            r == (Module { lessons: r.lessons, ..self }),
            r.lessons@ == self.lessons@.push(lesson),
    {
        let mut m = self;
        m.lessons.push(lesson);
        m
    }

    /// Set the quiz for this module.
    pub fn with_quiz(self, quiz: Quiz) -> (r: Self)
        ensures
            r == (Module { quiz: Some(quiz), ..self }),
    {
        Module { quiz: Some(quiz), ..self }
    }

    /// Set the lab for this module.
    pub fn with_lab(self, lab: Lab) -> (r: Self)
        ensures
            r == (Module { lab: Some(lab), ..self }),
    {
        Module { lab: Some(lab), ..self }
    }

    /// Set the unlock criteria.
    pub fn with_unlock_criteria(self, criteria: UnlockCriteria) -> (r: Self)
        ensures
            r == (Module { unlock_criteria: criteria, ..self }),
    {
        Module { unlock_criteria: criteria, ..self }
    }

    /// Get the total duration of all lessons in minutes.
    pub fn total_duration_minutes(&self) -> (r: u32)
        requires
            sum_duration(self.lessons@) <= u32::MAX,
        ensures
            r == sum_duration(self.lessons@),
    {
        let n = self.lessons.len();
        let mut total: u32 = 0;
        let mut i: usize = 0;
        proof {
            assert(self.lessons@.take(0) =~= Seq::<Lesson>::empty());
        }
        while i < n
            invariant
                i <= n,
                n == self.lessons@.len(),
                total == sum_duration(self.lessons@.take(i as int)),
                sum_duration(self.lessons@) <= u32::MAX,
            decreases n - i,
        {
            proof {
                lemma_sum_duration_step(self.lessons@, i as int);
                lemma_sum_duration_bound(self.lessons@, i + 1);
            }
            total = total + self.lessons[i].duration_minutes;
            i = i + 1;
        }
        proof {
            assert(self.lessons@.take(n as int) =~= self.lessons@);
        }
        total
    }
}

/// Criteria for unlocking a module.
#[derive(Debug, Clone, PartialEq)]
pub enum UnlockCriteria {
    /// No requirements (first module)
    NoRequirement,
    /// Must complete a specific module
    ModuleCompleted(ModuleId),
    /// Must achieve a minimum score on a quiz
    QuizScore {
        /// The quiz that must be completed
        quiz_id: QuizId,
        /// Minimum score in per-mille (0 ..= 1000)
        min_score: u32,
    },
}

impl Default for UnlockCriteria {
    /// By default a module has no unlock requirement.
    fn default() -> (r: Self)
        ensures
            r == UnlockCriteria::NoRequirement,
    {
        UnlockCriteria::NoRequirement
    }
}

/// A single lesson within a module.
#[derive(Debug, Clone, PartialEq)]
pub struct Lesson {
    /// Unique identifier for this lesson
    pub id: LessonId,
    /// Human-readable title
    pub title: String,
    /// The lesson content
    pub content: LessonContent,
    /// Estimated duration in minutes
    pub duration_minutes: u32,
}

impl Lesson {
    /// Create a new lesson with required fields.
    pub fn new(id: &str, title: &str) -> (r: Self)
        ensures
            r.id@ == id@,
            r.title@ == title@,
            (match r.content {
                LessonContent::Text(t) => t@ == Seq::<char>::empty(),
                _ => false,
            }),
            r.duration_minutes == 0,
    {
        Lesson {
            id: LessonId::new(id),
            title: title.to_owned(),
            content: LessonContent::Text(String::new()),
            duration_minutes: 0,
        }
    }

    /// Set the lesson content.
    pub fn with_content(self, content: LessonContent) -> (r: Self)
        ensures
            r == (Lesson { content: content, ..self }),
    {
        Lesson { content: content, ..self }
    }

    /// Set the duration.
    pub fn with_duration(self, minutes: u32) -> (r: Self)
        ensures
            r == (Lesson { duration_minutes: minutes, ..self }),
    {
        Lesson { duration_minutes: minutes, ..self }
    }
}

/// Types of lesson content.
#[derive(Debug, Clone, PartialEq)]
pub enum LessonContent {
    /// Markdown text content
    Text(String),
    /// Interactive code example
    InteractiveCode {
        /// The code to display
        code: String,
        /// Programming language
        language: Language,
    },
    /// Embedded simulation
    Simulation {
        /// ID of the simulation to embed
        sim_id: SimulationId,
    },
    /// Video reference (external URL)
    Video {
        /// URL of the video
        url: String,
        /// Duration in seconds
        duration_seconds: u32,
    },
}

} // verus!
