//! Application state and event handling.
//!
//! Manages the overall application lifecycle and user interactions.

use vstd::prelude::*;

use vstd::string::StringExecFns;

use vstd::view::View as _;

use crate::course::Course;
use crate::engine::QuizEngine;
use crate::ids::{CourseId, LabId, LessonId, ModuleId, QuizId};
use crate::quiz::{sum_points, Answer, Quiz};
use crate::progress::LearnerProgress;

verus! {

/// Application views.
#[derive(Debug, Clone, Copy, PartialEq, Eq, Structural)]
pub enum View {
    /// List of available courses
    CourseList,
    /// Single course detail
    CourseDetail,
    /// Module content
    Module,
    /// Lesson content
    Lesson,
    /// Taking a quiz
    Quiz,
    /// Doing a lab
    Lab,
    /// Viewing a simulation
    Simulation,
    /// Learner profile/progress
    Profile,
}

impl Default for View {
    /// The default view is the course list.
    fn default() -> (r: Self)
        ensures
            r == View::CourseList,
    {
        View::CourseList
    }
}

/// Application events.
#[derive(Debug, Clone)]
pub enum AppEvent {
    /// Navigate to a course
    SelectCourse(CourseId),
    /// Navigate to a module
    SelectModule(ModuleId),
    /// Navigate to a lesson
    SelectLesson(LessonId),
    /// Start a quiz
    StartQuiz(QuizId),
    /// Submit a quiz answer
    SubmitAnswer(Answer),
    /// Go to next question
    NextQuestion,
    /// Go to previous question
    PreviousQuestion,
    /// Finish the quiz
    FinishQuiz,
    /// Start a lab
    StartLab(LabId),
    /// Run lab tests
    RunLabTests,
    /// Submit lab
    SubmitLab,
    /// Navigate back
    GoBack,
    /// View profile
    ViewProfile,
}

/// Application errors.
#[derive(Debug, Clone, PartialEq)]
pub enum AppError {
    /// Course not found
    CourseNotFound,
    /// Module not found
    ModuleNotFound,
    /// Quiz error
    QuizError(String),
    /// Lab error
    LabError(String),
    /// Invalid state
    InvalidState,
}

impl AppError {
    /// A human-readable message for the error.
    pub fn message(&self) -> (r: String)
        ensures
            r@ == (match self {
                AppError::CourseNotFound => "Course not found"@,
                AppError::ModuleNotFound => "Module not found"@,
                AppError::QuizError(e) => "Quiz error: "@ + e@,
                AppError::LabError(e) => "Lab error: "@ + e@,
                AppError::InvalidState => "Invalid state for this operation"@,
            }),
    {
        match self {
            AppError::CourseNotFound => "Course not found".to_owned(),
            AppError::ModuleNotFound => "Module not found".to_owned(),
            AppError::QuizError(e) => {
                let mut out = String::new();
                out.append("Quiz error: ");
                out.append(e.as_str());
                out
            },
            AppError::LabError(e) => {
                let mut out = String::new();
                out.append("Lab error: ");
                out.append(e.as_str());
                out
            },
            AppError::InvalidState => "Invalid state for this operation".to_owned(),
        }
    }
}

/// Active quiz session.
#[derive(Debug, Clone)]
pub struct ActiveQuiz {
    /// Quiz engine managing state
    pub engine: QuizEngine,
    /// When the quiz was started (ms since epoch)
    pub start_time_ms: u64,
}

/// The first index of a course with the given identifier, or -1.
pub open spec fn find_course(cs: Seq<Course>, id: Seq<char>) -> int
    decreases cs.len(),
{
    if cs.len() == 0 {
        -1
    } else if cs[0].id@ == id {
        0
    } else {
        let rest = find_course(cs.skip(1), id);
        if rest < 0 {
            -1
        } else {
            rest + 1
        }
    }
}

proof fn lemma_find_course(cs: Seq<Course>, id: Seq<char>)
    ensures
        find_course(cs, id) == -1 ==> forall|k: int|
            0 <= k < cs.len() ==> (#[trigger] cs[k]).id@ != id,
        find_course(cs, id) != -1 ==> {
            let fi = find_course(cs, id);
            &&& 0 <= fi < cs.len()
            &&& cs[fi].id@ == id
            &&& forall|k: int| 0 <= k < fi ==> (#[trigger] cs[k]).id@ != id
        },
    decreases cs.len(),
{
    if cs.len() > 0 && cs[0].id@ != id {
        lemma_find_course(cs.skip(1), id);
        let rest = find_course(cs.skip(1), id);
        if rest == -1 {
            assert forall|k: int| 0 <= k < cs.len() implies (#[trigger] cs[k]).id@ != id by {
                if k > 0 {
                    assert(cs.skip(1)[k - 1].id@ != id);
                }
            }
        } else {
            assert(cs[rest + 1] == cs.skip(1)[rest]);
            assert forall|k: int| 0 <= k < rest + 1 implies (#[trigger] cs[k]).id@ != id by {
                if k > 0 {
                    assert(cs.skip(1)[k - 1].id@ != id);
                }
            }
        }
    }
}

/// Application state.
#[derive(Debug, Clone)]
pub struct AppState {
    /// Available courses
    pub courses: Vec<Course>,
    /// Current learner progress
    pub progress: Option<LearnerProgress>,
    /// Currently active view
    pub current_view: View,
    /// Active quiz engine (if taking a quiz)
    pub active_quiz: Option<ActiveQuiz>,
}

impl AppState {
    /// Structural validity: an active quiz engine is itself valid.
    pub open spec fn wf(&self) -> bool {
        match self.active_quiz {
            Some(aq) => aq.engine.wf(),
            None => true,
        }
    }

    /// Create a new application state.
    pub fn new() -> (r: Self)
        ensures
            r.courses@ == Seq::<Course>::empty(),
            r.progress is None,
            r.current_view == View::CourseList,
            r.active_quiz is None,
            r.wf(),
    {
        AppState {
            courses: Vec::new(),
            progress: None,
            current_view: View::CourseList,
            active_quiz: None,
        }
    }

    /// Load courses into the app, replacing the current list.
    pub fn load_courses(&mut self, courses: Vec<Course>)
        ensures
            *final (self) == (AppState { courses: courses, ..*old(self) }),
    {
        self.courses = courses;
    }

    /// Set the learner progress.
    pub fn set_progress(&mut self, progress: LearnerProgress)
        ensures
            (match final (self).progress {
                Some(p) => p == progress,
                None => false,
            }),
            final (self).courses == old(self).courses,
            final (self).current_view == old(self).current_view,
            final (self).active_quiz == old(self).active_quiz,
    {
        self.progress = Some(progress);
    }

    /// Get a course by ID.
    pub fn get_course(&self, id: &CourseId) -> (r: Option<&Course>)
        ensures
            (match r {
                Some(c) => find_course(self.courses@, id@) >= 0 && c == &self.courses@[find_course(
                    self.courses@,
                    id@,
                )],
                None => find_course(self.courses@, id@) == -1,
            }),
    {
        let n = self.courses.len();
        let mut i: usize = 0;
        while i < n
            invariant
                i <= n,
                n == self.courses@.len(),
                forall|k: int| 0 <= k < i ==> (#[trigger] self.courses@[k]).id@ != id@,
            decreases n - i,
        {
            if crate::strutil::str_eq(self.courses[i].id.as_str(), id.as_str()) {
                proof {
                    lemma_find_course(self.courses@, id@);
                    let fi = find_course(self.courses@, id@);
                    if fi == -1 {
                        assert(self.courses@[i as int].id@ != id@);
                    } else if fi < i {
                        assert(self.courses@[fi].id@ != id@);
                    } else if fi > i {
                        assert(self.courses@[i as int].id@ != id@);
                    }
                }
                return Some(&self.courses[i]);
            }
            i = i + 1;
        }
        proof {
            lemma_find_course(self.courses@, id@);
            if find_course(self.courses@, id@) != -1 {
                assert(self.courses@[find_course(self.courses@, id@)].id@ == id@);
            }
        }
        None
    }

    /// Navigate to a view.
    pub fn navigate(&mut self, view: View)
        ensures
            *final (self) == (AppState { current_view: view, ..*old(self) }),
    {
        self.current_view = view;
    }

    /// Start a quiz: a fresh engine is created and started, and the view
    /// moves to the quiz.
    pub fn start_quiz(&mut self, quiz: Quiz) -> (r: Result<(), AppError>)
        requires
            old(self).wf(),
            sum_points(quiz.questions@) <= u32::MAX,
        ensures
            final (self).wf(),
            quiz.questions@.len() > 0 && (match quiz.max_attempts {
                Some(m) => m > 0,
                None => true,
            }) ==> r is Ok && final (self).current_view == View::Quiz && (
            match final (self).active_quiz {
                Some(aq) => aq.engine.quiz == quiz && aq.engine.attempt_count == 1
                    && aq.start_time_ms == 0,
                None => false,
            }),
            quiz.questions@.len() == 0 || quiz.max_attempts == Some(0u32) ==> (match r {
                Err(AppError::QuizError(m)) => m@ == "Failed to start quiz"@,
                _ => false,
            }) && *final (self) == *old(self),
    {
        let mut engine = QuizEngine::new(quiz);
        let start_result = engine.start();
        let failed = match &start_result {
            Ok(..) => false,
            Err(..) => true,
        };
        if failed {
            return Err(AppError::QuizError("Failed to start quiz".to_owned()));
        }

        self.active_quiz = Some(ActiveQuiz { engine, start_time_ms: 0 });
        self.current_view = View::Quiz;
        Ok(())
    }

    /// Get the active quiz engine.
    pub fn quiz_engine(&self) -> (r: Option<&QuizEngine>)
        ensures
            (match (r, self.active_quiz) {
                (Some(e), Some(aq)) => e == &aq.engine,
                (None, None) => true,
                _ => false,
            }),
    {
        match &self.active_quiz {
            Some(aq) => Some(&aq.engine),
            None => None,
        }
    }

    /// Get a mutable reference to the active quiz engine.
    pub fn quiz_engine_mut(&mut self) -> (r: Option<&mut QuizEngine>)
        ensures
            (match (r, old(self).active_quiz) {
                (Some(e), Some(aq)) => *e == aq.engine && (match final (self).active_quiz {
                    Some(aq2) => aq2.engine == *final (e) && aq2.start_time_ms
                        == aq.start_time_ms,
                    None => false,
                }) && final (self).courses == old(self).courses && final (self).progress == old(
                    self,
                ).progress && final (self).current_view == old(self).current_view,
                (None, None) => *final (self) == *old(self),
                _ => false,
            }),
    {
        match &mut self.active_quiz {
            Some(aq) => Some(&mut aq.engine),
            None => None,
        }
    }
}

impl Default for AppState {
    /// The default state is a fresh one.
    fn default() -> (r: Self)
        ensures
            r.courses@ == Seq::<Course>::empty(),
            r.progress is None,
            r.current_view == View::CourseList,
            r.active_quiz is None,
    {
        AppState::new()
    }
}

/// Main application controller.
#[derive(Debug)]
pub struct App {
    /// The application state
    pub state: AppState,
}

impl App {
    /// Create a new application.
    pub fn new() -> (r: Self)
        ensures
            r.state.courses@ == Seq::<Course>::empty(),
            r.state.progress is None,
            r.state.current_view == View::CourseList,
            r.state.active_quiz is None,
            r.state.wf(),
    {
        App { state: AppState::new() }
    }

    /// Get the current state.
    pub fn state(&self) -> (r: &AppState)
        ensures
            r == &self.state,
    {
        &self.state
    }

    /// Get a mutable reference to the state.
    pub fn state_mut(&mut self) -> (r: &mut AppState)
        ensures
            *r == old(self).state,
            final (self).state == *final (r),
    {
        &mut self.state
    }

    /// Process an event and update state.  Navigation events move the
    /// view; quiz events require an active quiz engine and hand the
    /// operation to it; unhandled events succeed without effect.
    pub fn handle_event(&mut self, event: AppEvent) -> (r: Result<(), AppError>)
        requires
            old(self).state.wf(),
        ensures
            final (self).state.wf(),
            (match event {
                AppEvent::SelectCourse(id) => {
                    if find_course(old(self).state.courses@, id@) >= 0 {
                        r is Ok && final (self).state.current_view == View::CourseDetail
                    } else {
                        r == Err::<(), AppError>(AppError::CourseNotFound) && *final (self)
                            == *old(self)
                    }
                },
                AppEvent::StartQuiz(..) => r is Ok && final (self).state.current_view
                    == View::Quiz,
                AppEvent::GoBack => r is Ok && final (self).state.current_view
                    == View::CourseList,
                AppEvent::ViewProfile => r is Ok && final (self).state.current_view
                    == View::Profile,
                AppEvent::SubmitAnswer(..) | AppEvent::NextQuestion | AppEvent::PreviousQuestion
                    | AppEvent::FinishQuiz => old(self).state.active_quiz is None ==> r
                    == Err::<(), AppError>(AppError::InvalidState) && *final (self) == *old(
                    self,
                ),
                _ => r is Ok && *final (self) == *old(self),
            }),
    {
        match event {
            AppEvent::SelectCourse(id) => {
                let found = match self.state.get_course(&id) {
                    Some(..) => true,
                    None => false,
                };
                if found {
                    self.state.navigate(View::CourseDetail);
                    Ok(())
                } else {
                    Err(AppError::CourseNotFound)
                }
            },
            AppEvent::StartQuiz(..) => {
                self.state.navigate(View::Quiz);
                Ok(())
            },
            AppEvent::SubmitAnswer(answer) => {
                match &mut self.state.active_quiz {
                    Some(aq) => {
                        let submit_result = aq.engine.submit_answer(answer);
                        match submit_result {
                            Ok(..) => Ok(()),
                            Err(e) => Err(AppError::QuizError(e.message().to_owned())),
                        }
                    },
                    None => Err(AppError::InvalidState),
                }
            },
            AppEvent::NextQuestion => {
                match &mut self.state.active_quiz {
                    Some(aq) => {
                        let step_result = match aq.engine.next_question() {
                            Ok(..) => None,
                            Err(e) => Some(e),
                        };
                        match step_result {
                            None => Ok(()),
                            Some(e) => Err(AppError::QuizError(e.message().to_owned())),
                        }
                    },
                    None => Err(AppError::InvalidState),
                }
            },
            AppEvent::PreviousQuestion => {
                match &mut self.state.active_quiz {
                    Some(aq) => {
                        let step_result = match aq.engine.previous_question() {
                            Ok(..) => None,
                            Err(e) => Some(e),
                        };
                        match step_result {
                            None => Ok(()),
                            Some(e) => Err(AppError::QuizError(e.message().to_owned())),
                        }
                    },
                    None => Err(AppError::InvalidState),
                }
            },
            AppEvent::FinishQuiz => {
                match &mut self.state.active_quiz {
                    Some(aq) => {
                        let finish_result = aq.engine.finish();
                        match finish_result {
                            Ok(..) => Ok(()),
                            Err(e) => Err(AppError::QuizError(e.message().to_owned())),
                        }
                    },
                    None => Err(AppError::InvalidState),
                }
            },
            AppEvent::GoBack => {
                self.state.navigate(View::CourseList);
                Ok(())
            },
            AppEvent::ViewProfile => {
                self.state.navigate(View::Profile);
                Ok(())
            },
            _ => Ok(()),
        }
    }
}

impl Default for App {
    /// The default application is a fresh one.
    fn default() -> (r: Self)
        ensures
            r.state.courses@ == Seq::<Course>::empty(),
            r.state.current_view == View::CourseList,
            r.state.active_quiz is None,
    {
        App::new()
    }
}

} // verus!
