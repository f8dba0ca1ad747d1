//! Lab types and structures.
//!
//! Defines hands-on coding labs with test suites and validation.

use vstd::prelude::*;

use crate::ids::LabId;
use crate::quiz::TestCase;

verus! {

/// A hands-on coding lab.
#[derive(Debug, Clone, PartialEq)]
pub struct Lab {
    /// Unique identifier
    pub id: LabId,
    /// Human-readable title
    pub title: String,
    /// Lab description
    pub description: String,
    /// Programming language
    pub language: Language,
    /// Difficulty level
    pub difficulty: Difficulty,
    /// Estimated time in minutes
    pub estimated_minutes: u32,
    /// Step-by-step instructions
    pub instructions: Vec<LabStep>,
    /// Starter files provided to the learner
    pub starter_files: Vec<StarterFile>,
    /// Test suite for validation
    pub test_suite: TestSuite,
    /// Hints available to the learner
    pub hints: Vec<Hint>,
}

impl Lab {
    /// Create a new lab.
    pub fn new(id: &str, title: &str) -> (r: Self)
        ensures
            r.id@ == id@,
            r.title@ == title@,
            r.description@ == Seq::<char>::empty(),
            r.language == Language::Rust,
            r.difficulty == Difficulty::Beginner,
            r.estimated_minutes == 30,
            r.instructions@ == Seq::<LabStep>::empty(),
            r.starter_files@ == Seq::<StarterFile>::empty(),
            r.test_suite.tests@ == Seq::<TestCase>::empty(),
            r.hints@ == Seq::<Hint>::empty(),
    {
        Lab {
            id: LabId::new(id),
            title: title.to_owned(),
            description: String::new(),
            language: Language::Rust,
            difficulty: Difficulty::Beginner,
            estimated_minutes: 30,
            instructions: Vec::new(),
            starter_files: Vec::new(),
            test_suite: TestSuite { tests: Vec::new() },
            hints: Vec::new(),
        }
    }

    /// Set the description.
    pub fn with_description(self, description: &str) -> (r: Self)
        ensures
            r == (Lab { description: r.description, ..self }),
            r.description@ == description@,
    {
        Lab { description: description.to_owned(), ..self }
    }

    /// Set the language.
    pub fn with_language(self, language: Language) -> (r: Self)
        ensures
            r == (Lab { language: language, ..self }),
    {
        Lab { language: language, ..self }
    }

    /// Set the difficulty.
    pub fn with_difficulty(self, difficulty: Difficulty) -> (r: Self)
        ensures
            r == (Lab { difficulty: difficulty, ..self }),
    {
        Lab { difficulty: difficulty, ..self }
    }

    /// Set the estimated time.
    pub fn with_estimated_minutes(self, minutes: u32) -> (r: Self)
        ensures
            r == (Lab { estimated_minutes: minutes, ..self }),
    {
        Lab { estimated_minutes: minutes, ..self }
    }

    /// Add an instruction step.
    pub fn with_step(self, step: LabStep) -> (r: Self)
        ensures
            r == (Lab { instructions: r.instructions, ..self }),
            r.instructions@ == self.instructions@.push(step),
    {
        let mut l = self;
        l.instructions.push(step);
        l
    }

    /// Add a starter file.
    pub fn with_starter_file(self, file: StarterFile) -> (r: Self)
        ensures
            r == (Lab { starter_files: r.starter_files, ..self }),
            r.starter_files@ == self.starter_files@.push(file),
    {
        let mut l = self;
        l.starter_files.push(file);
        l
    }

    /// Set the test suite.
    pub fn with_test_suite(self, suite: TestSuite) -> (r: Self)
        ensures
            r == (Lab { test_suite: suite, ..self }),
    {
        Lab { test_suite: suite, ..self }
    }

    /// Add a hint.
    pub fn with_hint(self, hint: Hint) -> (r: Self)
        ensures
            r == (Lab { hints: r.hints, ..self }),
            r.hints@ == self.hints@.push(hint),
    {
        let mut l = self;
        l.hints.push(hint);
        l
    }

    /// Get the number of steps.
    pub fn step_count(&self) -> (r: usize)
        ensures
            r == self.instructions@.len(),
    {
        self.instructions.len()
    }
}

/// Programming languages supported for labs.
#[derive(Debug, Clone, Copy, PartialEq, Eq, Hash, Structural)]
pub enum Language {
    /// Rust programming language
    Rust,
    /// Python programming language
    Python,
    /// JavaScript (executed via WASM interpreter)
    JavaScript,
    /// TypeScript (transpiled to JavaScript)
    TypeScript,
    /// SQL queries
    Sql,
    /// Markdown (for documentation exercises)
    Markdown,
}

impl Default for Language {
    /// The default language is Rust.
    fn default() -> (r: Self)
        ensures
            r == Language::Rust,
    {
        Language::Rust
    }
}

impl Language {
    /// Get the file extension for this language.
    pub fn extension(&self) -> (r: &'static str)
        ensures
            r@ == (match self {
                Language::Rust => "rs"@,
                Language::Python => "py"@,
                Language::JavaScript => "js"@,
                Language::TypeScript => "ts"@,
                Language::Sql => "sql"@,
                Language::Markdown => "md"@,
            }),
    {
        match self {
            Language::Rust => "rs",
            Language::Python => "py",
            Language::JavaScript => "js",
            Language::TypeScript => "ts",
            Language::Sql => "sql",
            Language::Markdown => "md",
        }
    }

    /// Get the display name.
    pub fn name(&self) -> (r: &'static str)
        ensures
            r@ == (match self {
                Language::Rust => "Rust"@,
                Language::Python => "Python"@,
                Language::JavaScript => "JavaScript"@,
                Language::TypeScript => "TypeScript"@,
                Language::Sql => "SQL"@,
                Language::Markdown => "Markdown"@,
            }),
    {
        match self {
            Language::Rust => "Rust",
            Language::Python => "Python",
            Language::JavaScript => "JavaScript",
            Language::TypeScript => "TypeScript",
            Language::Sql => "SQL",
            Language::Markdown => "Markdown",
        }
    }

    /// The variant's identifier, as debug output would print it.
    pub fn variant_name(&self) -> (r: &'static str)
        ensures
            r@ == (match self {
                Language::Rust => "Rust"@,
                Language::Python => "Python"@,
                Language::JavaScript => "JavaScript"@,
                Language::TypeScript => "TypeScript"@,
                Language::Sql => "Sql"@,
                Language::Markdown => "Markdown"@,
            }),
    {
        match self {
            Language::Rust => "Rust",
            Language::Python => "Python",
            Language::JavaScript => "JavaScript",
            Language::TypeScript => "TypeScript",
            Language::Sql => "Sql",
            Language::Markdown => "Markdown",
        }
    }
}

/// Lab difficulty level.
#[derive(Debug, Clone, Copy, PartialEq, Eq, Hash, Structural)]
pub enum Difficulty {
    /// Easy exercises for beginners
    Beginner,
    /// Moderate difficulty
    Intermediate,
    /// Challenging exercises
    Advanced,
    /// Expert-level challenges
    Expert,
}

impl Default for Difficulty {
    /// The default difficulty is Beginner.
    fn default() -> (r: Self)
        ensures
            r == Difficulty::Beginner,
    {
        Difficulty::Beginner
    }
}

impl Difficulty {
    /// Get a human-readable label.
    pub fn label(&self) -> (r: &'static str)
        ensures
            r@ == (match self {
                Difficulty::Beginner => "Beginner"@,
                Difficulty::Intermediate => "Intermediate"@,
                Difficulty::Advanced => "Advanced"@,
                Difficulty::Expert => "Expert"@,
            }),
    {
        match self {
            Difficulty::Beginner => "Beginner",
            Difficulty::Intermediate => "Intermediate",
            Difficulty::Advanced => "Advanced",
            Difficulty::Expert => "Expert",
        }
    }
}

/// A step in the lab instructions.
#[derive(Debug, Clone, PartialEq)]
pub struct LabStep {
    /// Step number (1-indexed)
    pub number: u32,
    /// Step title
    pub title: String,
    /// Step description (markdown)
    pub description: String,
    /// Optional validation for this step
    pub validation: Option<StepValidation>,
}

impl LabStep {
    /// Create a new lab step.
    pub fn new(number: u32, title: &str) -> (r: Self)
        ensures
            r.number == number,
            r.title@ == title@,
            r.description@ == Seq::<char>::empty(),
            r.validation is None,
    {
        LabStep {
            number,
            title: title.to_owned(),
            description: String::new(),
            validation: None,
        }
    }

    /// Set the description.
    pub fn with_description(self, description: &str) -> (r: Self)
        ensures
            r == (LabStep { description: r.description, ..self }),
            r.description@ == description@,
    {
        LabStep { description: description.to_owned(), ..self }
    }

    /// Set the validation.
    pub fn with_validation(self, validation: StepValidation) -> (r: Self)
        ensures
            r == (LabStep { validation: Some(validation), ..self }),
    {
        LabStep { validation: Some(validation), ..self }
    }
}

/// Validation for a lab step.
#[derive(Debug, Clone, PartialEq)]
pub enum StepValidation {
    /// Check that a function exists
    FunctionExists {
        /// Name of the function to check
        name: String,
    },
    /// Check that specific tests pass
    TestsPass {
        /// Names of tests that must pass
        test_names: Vec<String>,
    },
    /// Check that output matches expected
    OutputMatches {
        /// Expected output
        expected: String,
    },
}

/// A starter file provided to the learner.
#[derive(Debug, Clone, PartialEq)]
pub struct StarterFile {
    /// File path relative to project root
    pub path: String,
    /// Initial content
    pub content: String,
    /// Whether the file is read-only
    pub readonly: bool,
}

impl StarterFile {
    /// Create a new editable starter file.
    pub fn new(path: &str, content: &str) -> (r: Self)
        ensures
            r.path@ == path@,
            r.content@ == content@,
            r.readonly == false,
    {
        StarterFile { path: path.to_owned(), content: content.to_owned(), readonly: false }
    }

    /// Create a read-only starter file.
    pub fn readonly(path: &str, content: &str) -> (r: Self)
        ensures
            r.path@ == path@,
            r.content@ == content@,
            r.readonly == true,
    {
        StarterFile { path: path.to_owned(), content: content.to_owned(), readonly: true }
    }
}

/// Test suite for a lab.
#[derive(Debug, Clone, PartialEq)]
pub struct TestSuite {
    /// Test cases
    pub tests: Vec<TestCase>,
}

impl Default for TestSuite {
    /// The default suite is empty.
    fn default() -> (r: Self)
        ensures
            r.tests@ == Seq::<TestCase>::empty(),
    {
        TestSuite { tests: Vec::new() }
    }
}

impl TestSuite {
    /// Create a new empty test suite.
    pub fn new() -> (r: Self)
        ensures
            r.tests@ == Seq::<TestCase>::empty(),
    {
        TestSuite { tests: Vec::new() }
    }

    /// Add a test case.
    pub fn with_test(self, test: TestCase) -> (r: Self)
        ensures
            r.tests@ == self.tests@.push(test),
    {
        let mut s = self;
        s.tests.push(test);
        s
    }

    /// Get the number of tests.
    pub fn test_count(&self) -> (r: usize)
        ensures
            r == self.tests@.len(),
    {
        self.tests.len()
    }
}

/// A hint for a lab.
#[derive(Debug, Clone, PartialEq)]
pub struct Hint {
    /// Which step this hint applies to
    pub step: u32,
    /// The hint text
    pub text: String,
}

impl Hint {
    /// Create a new hint.
    pub fn new(step: u32, text: &str) -> (r: Self)
        ensures
            r.step == step,
            r.text@ == text@,
    {
        Hint { step, text: text.to_owned() }
    }
}

} // verus!
