//! Tests for progress tracking.

use profesor::{
    CourseId, CourseProgress, CourseStatus, LabCompletion, LabId, LearnerId, LearnerProgress,
    ModuleId, QuizAttempt, QuizId, Timestamp,
};

#[test]
fn test_learner_progress_creation() {
    let progress = LearnerProgress::new("user-123");
    assert_eq!(progress.learner_id.as_str(), "user-123");
    assert_eq!(progress.total_xp, 0);
    assert_eq!(progress.course_count(), 0);
}

#[test]
fn test_learner_id_from_string() {
    let id: LearnerId = String::from("user-456").into();
    assert_eq!(id.as_str(), "user-456");
}

#[test]
fn test_timestamp() {
    let ts = Timestamp::from_millis(12345);
    assert_eq!(ts.as_millis(), 12345);
    assert_eq!(Timestamp::from_millis(0).as_millis(), 0);
    assert_eq!(Timestamp::default().as_millis(), 0);
}

#[test]
fn test_start_course() {
    let mut progress = LearnerProgress::new("user-1");
    let course_id = CourseId::new("rust-101");
    let now = Timestamp::from_millis(1000);

    progress.start_course(course_id.clone(), now);

    assert_eq!(progress.course_count(), 1);
    assert!(progress.course_progress(&course_id).is_some());
    assert_eq!(progress.last_activity.as_millis(), 1000);
}

#[test]
fn test_add_xp() {
    let mut progress = LearnerProgress::new("user-1");
    let now = Timestamp::from_millis(1000);

    progress.add_xp(100, now);
    progress.add_xp(50, now);

    assert_eq!(progress.total_xp, 150);
}

#[test]
fn test_completed_courses() {
    let mut progress = LearnerProgress::new("user-1");
    let now = Timestamp::from_millis(1000);

    progress.start_course(CourseId::new("course-1"), now);
    progress.start_course(CourseId::new("course-2"), now);

    assert_eq!(progress.completed_courses(), 0);

    // Complete one course
    if let Some(cp) = progress
        .courses
        .iter_mut()
        .find(|c| c.course_id.as_str() == "course-1")
    {
        cp.complete(now);
    }

    assert_eq!(progress.completed_courses(), 1);
}

#[test]
fn test_course_progress_modules() {
    let mut cp = CourseProgress::new(CourseId::new("test"), Timestamp::from_millis(0));

    cp.complete_module(ModuleId::new("mod-1"));
    cp.complete_module(ModuleId::new("mod-2"));
    cp.complete_module(ModuleId::new("mod-1")); // Duplicate should be ignored

    assert_eq!(cp.modules_completed.len(), 2);
}

#[test]
fn test_set_current_module() {
    let mut cp = CourseProgress::new(CourseId::new("test"), Timestamp::from_millis(0));
    assert!(cp.current_module.is_none());

    cp.set_current_module(ModuleId::new("mod-1"));
    assert_eq!(cp.current_module.as_ref().unwrap().as_str(), "mod-1");
}

#[test]
fn test_quiz_attempt_recording() {
    let mut cp = CourseProgress::new(CourseId::new("test"), Timestamp::from_millis(0));
    let quiz_id = QuizId::new("quiz-1");

    cp.record_quiz_attempt(
        &quiz_id,
        QuizAttempt::new(600, 300, Timestamp::from_millis(1000), false),
    );
    cp.record_quiz_attempt(
        &quiz_id,
        QuizAttempt::new(800, 250, Timestamp::from_millis(2000), true),
    );

    assert_eq!(cp.best_quiz_score(&quiz_id), Some(800));
}

#[test]
fn test_best_quiz_score_none() {
    let cp = CourseProgress::new(CourseId::new("test"), Timestamp::from_millis(0));
    let quiz_id = QuizId::new("nonexistent");
    assert!(cp.best_quiz_score(&quiz_id).is_none());
}

#[test]
fn test_record_lab_completion() {
    let mut cp = CourseProgress::new(CourseId::new("test"), Timestamp::from_millis(0));
    let lab_id = LabId::new("lab-1");
    let completion = LabCompletion::new(10, 10, 1800, Timestamp::from_millis(5000));

    cp.record_lab_completion(&lab_id, completion);

    assert!(cp.lab_completions.iter().any(|(k, _)| k == "lab-1"));
    assert!(
        cp.lab_completions
            .iter()
            .find(|(k, _)| k == "lab-1")
            .unwrap()
            .1
            .all_tests_passed
    );
}

#[test]
fn test_course_progress_complete() {
    let mut cp = CourseProgress::new(CourseId::new("test"), Timestamp::from_millis(0));
    assert_eq!(cp.status, CourseStatus::InProgress);
    assert!(cp.completed_at.is_none());

    let now = Timestamp::from_millis(10000);
    cp.complete(now);

    assert_eq!(cp.status, CourseStatus::Completed);
    assert_eq!(cp.completed_at.unwrap().as_millis(), 10000);
}

#[test]
fn test_lab_completion() {
    let completion = LabCompletion::new(8, 10, 1800, Timestamp::from_millis(5000));

    assert!(!completion.all_tests_passed);
    assert_eq!(completion.pass_rate(), 800);
}

#[test]
fn test_lab_completion_all_passed() {
    let completion = LabCompletion::new(10, 10, 1800, Timestamp::from_millis(5000));
    assert!(completion.all_tests_passed);
    assert_eq!(completion.pass_rate(), 1000);
}

#[test]
fn test_lab_completion_zero_tests() {
    let completion = LabCompletion::new(0, 0, 100, Timestamp::from_millis(0));
    assert_eq!(completion.pass_rate(), 0);
}

#[test]
fn test_completion_percentage() {
    let mut cp = CourseProgress::new(CourseId::new("test"), Timestamp::from_millis(0));
    cp.complete_module(ModuleId::new("mod-1"));
    cp.complete_module(ModuleId::new("mod-2"));

    let pct = cp.completion_percentage(4);
    assert_eq!(pct, 500);
}

#[test]
fn test_completion_percentage_zero_modules() {
    let cp = CourseProgress::new(CourseId::new("test"), Timestamp::from_millis(0));
    assert_eq!(cp.completion_percentage(0), 0);
}

#[test]
fn test_course_status() {
    assert!(CourseStatus::InProgress.is_active());
    assert!(!CourseStatus::Completed.is_active());
    assert!(CourseStatus::Completed.is_finished());
    assert!(CourseStatus::Abandoned.is_finished());
}

#[test]
fn test_course_status_default() {
    let status = CourseStatus::default();
    assert_eq!(status, CourseStatus::NotStarted);
    assert!(!status.is_active());
    assert!(!status.is_finished());
}
