//! Strongly-typed identifiers for all entities.
//!
//! Each ID type is a newtype wrapper around a string, providing type safety
//! and preventing accidental mixing of different ID types.

use vstd::prelude::*;

verus! {

/// Unique identifier for a course.
#[derive(Debug, Clone, Eq, Hash)]
pub struct CourseId(pub String);

impl View for CourseId {
    type V = Seq<char>;

    open spec fn view(&self) -> Seq<char> {
        self.0@
    }
}

impl CourseId {
    /// Create a new ID from a string.
    pub fn new(id: &str) -> (r: Self)
        ensures
            r@ == id@,
    {
        CourseId(id.to_owned())
    }

    /// Get the inner string value.
    pub fn as_str(&self) -> (r: &str)
        ensures
            r@ == self@,
    {
        self.0.as_str()
    }
}

impl PartialEq for CourseId {
    fn eq(&self, other: &Self) -> (r: bool) {
        self.0 == other.0
    }
}

impl vstd::std_specs::cmp::PartialEqSpecImpl for CourseId {
    open spec fn obeys_eq_spec() -> bool {
        true
    }

    open spec fn eq_spec(&self, other: &Self) -> bool {
        self.0@ == other.0@
    }
}

impl<'a> From<&'a str> for CourseId {
    fn from(s: &'a str) -> (r: Self)
        ensures
            r@ == s@,
    {
        CourseId::new(s)
    }
}

impl<'a> vstd::std_specs::convert::FromSpecImpl<&'a str> for CourseId {
    open spec fn obeys_from_spec() -> bool {
        false
    }

    open spec fn from_spec(s: &'a str) -> Self {
        arbitrary()
    }
}

impl From<String> for CourseId {
    fn from(s: String) -> (r: Self)
        ensures
            r@ == s@,
    {
        CourseId(s)
    }
}

impl vstd::std_specs::convert::FromSpecImpl<String> for CourseId {
    open spec fn obeys_from_spec() -> bool {
        true
    }

    open spec fn from_spec(s: String) -> Self {
        CourseId(s)
    }
}

/// Unique identifier for a module within a course.
#[derive(Debug, Clone, Eq, Hash)]
pub struct ModuleId(pub String);

impl View for ModuleId {
    type V = Seq<char>;

    open spec fn view(&self) -> Seq<char> {
        self.0@
    }
}

impl ModuleId {
    /// Create a new ID from a string.
    pub fn new(id: &str) -> (r: Self)
        ensures
            r@ == id@,
    {
        ModuleId(id.to_owned())
    }

    /// Get the inner string value.
    pub fn as_str(&self) -> (r: &str)
        ensures
            r@ == self@,
    {
        self.0.as_str()
    }
}

impl PartialEq for ModuleId {
    fn eq(&self, other: &Self) -> (r: bool) {
        self.0 == other.0
    }
}

impl vstd::std_specs::cmp::PartialEqSpecImpl for ModuleId {
    open spec fn obeys_eq_spec() -> bool {
        true
    }

    open spec fn eq_spec(&self, other: &Self) -> bool {
        self.0@ == other.0@
    }
}

impl<'a> From<&'a str> for ModuleId {
    fn from(s: &'a str) -> (r: Self)
        ensures
            r@ == s@,
    {
        ModuleId::new(s)
    }
}

impl<'a> vstd::std_specs::convert::FromSpecImpl<&'a str> for ModuleId {
    open spec fn obeys_from_spec() -> bool {
        false
    }

    open spec fn from_spec(s: &'a str) -> Self {
        arbitrary()
    }
}

impl From<String> for ModuleId {
    fn from(s: String) -> (r: Self)
        ensures
            r@ == s@,
    {
        ModuleId(s)
    }
}

impl vstd::std_specs::convert::FromSpecImpl<String> for ModuleId {
    open spec fn obeys_from_spec() -> bool {
        true
    }

    open spec fn from_spec(s: String) -> Self {
        ModuleId(s)
    }
}

/// Unique identifier for a lesson within a module.
#[derive(Debug, Clone, Eq, Hash)]
pub struct LessonId(pub String);

impl View for LessonId {
    type V = Seq<char>;

    open spec fn view(&self) -> Seq<char> {
        self.0@
    }
}

impl LessonId {
    /// Create a new ID from a string.
    pub fn new(id: &str) -> (r: Self)
        ensures
            r@ == id@,
    {
        LessonId(id.to_owned())
    }

    /// Get the inner string value.
    pub fn as_str(&self) -> (r: &str)
        ensures
            r@ == self@,
    {
        self.0.as_str()
    }
}

impl PartialEq for LessonId {
    fn eq(&self, other: &Self) -> (r: bool) {
        self.0 == other.0
    }
}

impl vstd::std_specs::cmp::PartialEqSpecImpl for LessonId {
    open spec fn obeys_eq_spec() -> bool {
        true
    }

    open spec fn eq_spec(&self, other: &Self) -> bool {
        self.0@ == other.0@
    }
}

impl<'a> From<&'a str> for LessonId {
    fn from(s: &'a str) -> (r: Self)
        ensures
            r@ == s@,
    {
        LessonId::new(s)
    }
}

impl<'a> vstd::std_specs::convert::FromSpecImpl<&'a str> for LessonId {
    open spec fn obeys_from_spec() -> bool {
        false
    }

    open spec fn from_spec(s: &'a str) -> Self {
        arbitrary()
    }
}

impl From<String> for LessonId {
    fn from(s: String) -> (r: Self)
        ensures
            r@ == s@,
    {
        LessonId(s)
    }
}

impl vstd::std_specs::convert::FromSpecImpl<String> for LessonId {
    open spec fn obeys_from_spec() -> bool {
        true
    }

    open spec fn from_spec(s: String) -> Self {
        LessonId(s)
    }
}

/// Unique identifier for a quiz.
#[derive(Debug, Clone, Eq, Hash)]
pub struct QuizId(pub String);

impl View for QuizId {
    type V = Seq<char>;

    open spec fn view(&self) -> Seq<char> {
        self.0@
    }
}

impl QuizId {
    /// Create a new ID from a string.
    pub fn new(id: &str) -> (r: Self)
        ensures
            r@ == id@,
    {
        QuizId(id.to_owned())
    }

    /// Get the inner string value.
    pub fn as_str(&self) -> (r: &str)
        ensures
            r@ == self@,
    {
        self.0.as_str()
    }
}

impl PartialEq for QuizId {
    fn eq(&self, other: &Self) -> (r: bool) {
        self.0 == other.0
    }
}

impl vstd::std_specs::cmp::PartialEqSpecImpl for QuizId {
    open spec fn obeys_eq_spec() -> bool {
        true
    }

    open spec fn eq_spec(&self, other: &Self) -> bool {
        self.0@ == other.0@
    }
}

impl<'a> From<&'a str> for QuizId {
    fn from(s: &'a str) -> (r: Self)
        ensures
            r@ == s@,
    {
        QuizId::new(s)
    }
}

impl<'a> vstd::std_specs::convert::FromSpecImpl<&'a str> for QuizId {
    open spec fn obeys_from_spec() -> bool {
        false
    }

    open spec fn from_spec(s: &'a str) -> Self {
        arbitrary()
    }
}

impl From<String> for QuizId {
    fn from(s: String) -> (r: Self)
        ensures
            r@ == s@,
    {
        QuizId(s)
    }
}

impl vstd::std_specs::convert::FromSpecImpl<String> for QuizId {
    open spec fn obeys_from_spec() -> bool {
        true
    }

    open spec fn from_spec(s: String) -> Self {
        QuizId(s)
    }
}

/// Unique identifier for a question within a quiz.
#[derive(Debug, Clone, Eq, Hash)]
pub struct QuestionId(pub String);

impl View for QuestionId {
    type V = Seq<char>;

    open spec fn view(&self) -> Seq<char> {
        self.0@
    }
}

impl QuestionId {
    /// Create a new ID from a string.
    pub fn new(id: &str) -> (r: Self)
        ensures
            r@ == id@,
    {
        QuestionId(id.to_owned())
    }

    /// Get the inner string value.
    pub fn as_str(&self) -> (r: &str)
        ensures
            r@ == self@,
    {
        self.0.as_str()
    }
}

impl PartialEq for QuestionId {
    fn eq(&self, other: &Self) -> (r: bool) {
        self.0 == other.0
    }
}

impl vstd::std_specs::cmp::PartialEqSpecImpl for QuestionId {
    open spec fn obeys_eq_spec() -> bool {
        true
    }

    open spec fn eq_spec(&self, other: &Self) -> bool {
        self.0@ == other.0@
    }
}

impl<'a> From<&'a str> for QuestionId {
    fn from(s: &'a str) -> (r: Self)
        ensures
            r@ == s@,
    {
        QuestionId::new(s)
    }
}

impl<'a> vstd::std_specs::convert::FromSpecImpl<&'a str> for QuestionId {
    open spec fn obeys_from_spec() -> bool {
        false
    }

    open spec fn from_spec(s: &'a str) -> Self {
        arbitrary()
    }
}

impl From<String> for QuestionId {
    fn from(s: String) -> (r: Self)
        ensures
            r@ == s@,
    {
        QuestionId(s)
    }
}

impl vstd::std_specs::convert::FromSpecImpl<String> for QuestionId {
    open spec fn obeys_from_spec() -> bool {
        true
    }

    open spec fn from_spec(s: String) -> Self {
        QuestionId(s)
    }
}

/// Unique identifier for a lab.
#[derive(Debug, Clone, Eq, Hash)]
pub struct LabId(pub String);

impl View for LabId {
    type V = Seq<char>;

    open spec fn view(&self) -> Seq<char> {
        self.0@
    }
}

impl LabId {
    /// Create a new ID from a string.
    pub fn new(id: &str) -> (r: Self)
        ensures
            r@ == id@,
    {
        LabId(id.to_owned())
    }

    /// Get the inner string value.
    pub fn as_str(&self) -> (r: &str)
        ensures
            r@ == self@,
    {
        self.0.as_str()
    }
}

impl PartialEq for LabId {
    fn eq(&self, other: &Self) -> (r: bool) {
        self.0 == other.0
    }
}

impl vstd::std_specs::cmp::PartialEqSpecImpl for LabId {
    open spec fn obeys_eq_spec() -> bool {
        true
    }

    open spec fn eq_spec(&self, other: &Self) -> bool {
        self.0@ == other.0@
    }
}

impl<'a> From<&'a str> for LabId {
    fn from(s: &'a str) -> (r: Self)
        ensures
            r@ == s@,
    {
        LabId::new(s)
    }
}

impl<'a> vstd::std_specs::convert::FromSpecImpl<&'a str> for LabId {
    open spec fn obeys_from_spec() -> bool {
        false
    }

    open spec fn from_spec(s: &'a str) -> Self {
        arbitrary()
    }
}

impl From<String> for LabId {
    fn from(s: String) -> (r: Self)
        ensures
            r@ == s@,
    {
        LabId(s)
    }
}

impl vstd::std_specs::convert::FromSpecImpl<String> for LabId {
    open spec fn obeys_from_spec() -> bool {
        true
    }

    open spec fn from_spec(s: String) -> Self {
        LabId(s)
    }
}

/// Unique identifier for a simulation.
#[derive(Debug, Clone, Eq, Hash)]
pub struct SimulationId(pub String);

impl View for SimulationId {
    type V = Seq<char>;

    open spec fn view(&self) -> Seq<char> {
        self.0@
    }
}

impl SimulationId {
    /// Create a new ID from a string.
    pub fn new(id: &str) -> (r: Self)
        ensures
            r@ == id@,
    {
        SimulationId(id.to_owned())
    }

    /// Get the inner string value.
    pub fn as_str(&self) -> (r: &str)
        ensures
            r@ == self@,
    {
        self.0.as_str()
    }
}

impl PartialEq for SimulationId {
    fn eq(&self, other: &Self) -> (r: bool) {
        self.0 == other.0
    }
}

impl vstd::std_specs::cmp::PartialEqSpecImpl for SimulationId {
    open spec fn obeys_eq_spec() -> bool {
        true
    }

    open spec fn eq_spec(&self, other: &Self) -> bool {
        self.0@ == other.0@
    }
}

impl<'a> From<&'a str> for SimulationId {
    fn from(s: &'a str) -> (r: Self)
        ensures
            r@ == s@,
    {
        SimulationId::new(s)
    }
}

impl<'a> vstd::std_specs::convert::FromSpecImpl<&'a str> for SimulationId {
    open spec fn obeys_from_spec() -> bool {
        false
    }

    open spec fn from_spec(s: &'a str) -> Self {
        arbitrary()
    }
}

impl From<String> for SimulationId {
    fn from(s: String) -> (r: Self)
        ensures
            r@ == s@,
    {
        SimulationId(s)
    }
}

impl vstd::std_specs::convert::FromSpecImpl<String> for SimulationId {
    open spec fn obeys_from_spec() -> bool {
        true
    }

    open spec fn from_spec(s: String) -> Self {
        SimulationId(s)
    }
}

} // verus!
