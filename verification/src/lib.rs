//! A browser-embeddable learning platform: hierarchical course content, an
//! auto-graded quiz state machine, a sandboxed code-lab runner with feedback
//! generation, and a deterministic 2D rigid-body physics engine for visual
//! teaching demos.
//!
//! Every executable function in this crate carries a contract checked by
//! Verus.  Quantities that the surrounding tooling handles as floating-point
//! numbers (scores, physics coordinates) are held here as exact integers:
//! scores as per-mille values, physics scalars as fixed-point numbers with a
//! million units to one.

use vstd::prelude::*;

pub use app::{ActiveQuiz, App, AppError, AppEvent, AppState, View};
pub use color::Color;
pub use course::{Course, CourseLevel, Lesson, LessonContent, Module, UnlockCriteria};
pub use engine::{QuizEngine, QuizError, QuizState};
pub use feedback::{
    DifferenceType, ErrorCategory, ErrorExplanation, FeedbackGenerator, OutputComparison,
};
pub use grader::Grader;
pub use ids::{CourseId, LabId, LessonId, ModuleId, QuestionId, QuizId, SimulationId};
pub use lab::{Difficulty, Hint, Lab, LabStep, Language, StarterFile, StepValidation, TestSuite};
pub use physics::{PhysicsWorld, RigidBody, Vec2};
pub use progress::{
    CourseProgress, CourseStatus, LabCompletion, LearnerId, LearnerProgress, QuizAttempt,
    Timestamp,
};
pub use quiz::{Answer, Blank, Feedback, Question, Quiz, Score, TestCase};
pub use runner::{TestResult, TestResults, TestRunner};
pub use sandbox::{ExecutionResult, Sandbox, SandboxConfig};

pub mod app;
pub mod color;
pub mod course;
pub mod engine;
pub mod feedback;
pub mod fx;
pub mod grader;
pub mod ids;
pub mod lab;
pub mod physics;
pub mod progress;
pub mod quiz;
pub mod runner;
pub mod sandbox;
pub mod strutil;

verus! {

/// Library version.
pub const VERSION: &'static str = "0.1.0";

} // verus!
