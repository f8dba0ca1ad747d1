//! Error explanations and feedback generation.
//!
//! When execution stops, the generator turns the raw error text into an
//! actionable explanation, and compares expected against actual output to
//! point at the first difference.

use vstd::prelude::*;

use vstd::string::StringExecFns;

use crate::lab::Language;
use crate::strutil::{
    chars_of, contains_seq, dec_str, drop_spaces, line_ranges, lower_of, remove_spaces,
    split_lines, str_contains, to_lowercase, trim_seq, trim_str, u64_to_string, vec_char_eq,
};

verus! {

/// Categories of errors.
#[derive(Debug, Clone, Copy, PartialEq, Eq, Structural)]
pub enum ErrorCategory {
    /// Syntax error (parsing failed)
    SyntaxError,
    /// Type mismatch
    TypeMismatch,
    /// Variable/function not found
    NotFound,
    /// Borrow checker error (Rust specific)
    BorrowChecker,
    /// Runtime error
    RuntimeError,
    /// Timeout
    Timeout,
    /// Memory limit exceeded
    MemoryExceeded,
    /// Unknown error
    Unknown,
}

/// Detailed error explanation.
#[derive(Debug, Clone, PartialEq)]
pub struct ErrorExplanation {
    /// Category of error
    pub category: ErrorCategory,
    /// Short summary
    pub summary: String,
    /// Detailed explanation
    pub explanation: String,
    /// Actionable suggestion
    pub suggestion: String,
    /// Related concepts to review
    pub related_concepts: Vec<String>,
}

impl ErrorExplanation {
    /// A generic explanation for unrecognized errors, quoting the error
    /// text.
    fn generic(error: &str) -> (r: ErrorExplanation)
        ensures
            r.category == ErrorCategory::Unknown,
            r.summary@ == "Error occurred"@,
            r.explanation@ == error@,
            r.suggestion@ == "Review your code and check for common mistakes."@,
            r.related_concepts@ == Seq::<String>::empty(),
    {
        ErrorExplanation {
            category: ErrorCategory::Unknown,
            summary: "Error occurred".to_owned(),
            explanation: error.to_owned(),
            suggestion: "Review your code and check for common mistakes.".to_owned(),
            related_concepts: Vec::new(),
        }
    }
}

/// Which explanation the Rust cascade picks for a lowercased error text.
pub open spec fn rust_branch(low: Seq<char>) -> int {
    if contains_seq(low, "cannot borrow"@) {
        0
    } else if contains_seq(low, "type mismatch"@) || (contains_seq(low, "expected"@)
        && contains_seq(low, "found"@)) {
        1
    } else if contains_seq(low, "cannot find"@) || contains_seq(low, "not found"@) {
        2
    } else if contains_seq(low, "overflow"@) {
        3
    } else if contains_seq(low, "index out of bounds"@) {
        4
    } else if contains_seq(low, "unwrap"@) || contains_seq(
        low,
        "called `option::unwrap()` on a `none`"@,
    ) {
        5
    } else {
        6
    }
}

/// The category of each Rust cascade branch.
pub open spec fn rust_category(b: int) -> ErrorCategory {
    if b == 0 {
        ErrorCategory::BorrowChecker
    } else if b == 1 {
        ErrorCategory::TypeMismatch
    } else if b == 2 {
        ErrorCategory::NotFound
    } else if b == 3 || b == 4 || b == 5 {
        ErrorCategory::RuntimeError
    } else {
        ErrorCategory::Unknown
    }
}

/// The summary of each Rust cascade branch.
pub open spec fn rust_summary(b: int) -> Seq<char> {
    if b == 0 {
        "Borrow checker error"@
    } else if b == 1 {
        "Type mismatch error"@
    } else if b == 2 {
        "Item not found"@
    } else if b == 3 {
        "Arithmetic overflow"@
    } else if b == 4 {
        "Index out of bounds"@
    } else if b == 5 {
        "Unwrap on None/Err"@
    } else {
        "Error occurred"@
    }
}

/// The suggestion of each Rust cascade branch.
pub open spec fn rust_suggestion(b: int) -> Seq<char> {
    if b == 0 {
        "Consider using .clone() to create an owned copy, or restructure your code to avoid overlapping borrows."@
    } else if b == 1 {
        "Check the function signature and ensure you're passing the correct types. You may need type conversion."@
    } else if b == 2 {
        "Check for typos in the name. Ensure the item is in scope or properly imported."@
    } else if b == 3 {
        "Consider using checked arithmetic methods like checked_add() or a larger integer type."@
    } else if b == 4 {
        "Check the length of the collection before accessing. Consider using .get() which returns Option."@
    } else if b == 5 {
        "Use pattern matching, if let, or ? operator instead of unwrap() for proper error handling."@
    } else {
        "Review your code and check for common mistakes."@
    }
}

/// Which explanation the Python cascade picks for a lowercased error text.
pub open spec fn python_branch(low: Seq<char>) -> int {
    if contains_seq(low, "indentationerror"@) {
        0
    } else if contains_seq(low, "nameerror"@) {
        1
    } else if contains_seq(low, "typeerror"@) {
        2
    } else if contains_seq(low, "indexerror"@) {
        3
    } else if contains_seq(low, "keyerror"@) {
        4
    } else if contains_seq(low, "zerodivisionerror"@) {
        5
    } else {
        6
    }
}

/// The category of each Python cascade branch.
pub open spec fn python_category(b: int) -> ErrorCategory {
    if b == 0 {
        ErrorCategory::SyntaxError
    } else if b == 1 {
        ErrorCategory::NotFound
    } else if b == 2 {
        ErrorCategory::TypeMismatch
    } else if b == 3 || b == 4 || b == 5 {
        ErrorCategory::RuntimeError
    } else {
        ErrorCategory::Unknown
    }
}

/// The summary of each Python cascade branch.
pub open spec fn python_summary(b: int) -> Seq<char> {
    if b == 0 {
        "Indentation error"@
    } else if b == 1 {
        "Name not defined"@
    } else if b == 2 {
        "Type error"@
    } else if b == 3 {
        "Index out of range"@
    } else if b == 4 {
        "Key not found"@
    } else if b == 5 {
        "Division by zero"@
    } else {
        "Error occurred"@
    }
}

/// The suggestion of each Python cascade branch.
pub open spec fn python_suggestion(b: int) -> Seq<char> {
    if b == 0 {
        "Use consistent indentation (4 spaces recommended). Don't mix tabs and spaces."@
    } else if b == 1 {
        "Check for typos. Make sure the variable is defined before you use it."@
    } else if b == 2 {
        "Check the types of your variables. You may need to convert between types."@
    } else if b == 3 {
        "Check len() before accessing. Remember Python uses 0-based indexing."@
    } else if b == 4 {
        "Use .get() method which returns None for missing keys, or check with 'in' operator first."@
    } else if b == 5 {
        "Add a check before division to ensure the divisor is not zero."@
    } else {
        "Review your code and check for common mistakes."@
    }
}

/// The first index at which two equally long line lists differ, or the
/// length when they agree everywhere.
pub open spec fn first_diff_idx(e: Seq<Seq<char>>, a: Seq<Seq<char>>) -> int
    decreases e.len(),
{
    if e.len() == 0 {
        0
    } else if e[0] != a[0] {
        0
    } else {
        1 + first_diff_idx(e.skip(1), a.skip(1))
    }
}

proof fn lemma_first_diff_idx(e: Seq<Seq<char>>, a: Seq<Seq<char>>)
    requires
        e.len() == a.len(),
    ensures
        0 <= first_diff_idx(e, a) <= e.len(),
        forall|k: int| 0 <= k < first_diff_idx(e, a) ==> e[k] == a[k],
        first_diff_idx(e, a) < e.len() ==> e[first_diff_idx(e, a)] != a[first_diff_idx(e, a)],
    decreases e.len(),
{
    if e.len() > 0 && e[0] == a[0] {
        lemma_first_diff_idx(e.skip(1), a.skip(1));
        let fd = first_diff_idx(e, a);
        assert forall|k: int| 0 <= k < fd implies e[k] == a[k] by {
            if k > 0 {
                assert(e.skip(1)[k - 1] == a.skip(1)[k - 1]);
            }
        }
        if fd < e.len() {
            assert(e[fd] == e.skip(1)[first_diff_idx(e.skip(1), a.skip(1))]);
            assert(a[fd] == a.skip(1)[first_diff_idx(e.skip(1), a.skip(1))]);
        }
    }
}

/// Feedback generator for lab execution results.
pub struct FeedbackGenerator;

impl FeedbackGenerator {
    /// Generate helpful feedback for a runtime error.  Rust and Python
    /// errors are recognized by their lowercased text; everything else
    /// becomes a generic explanation quoting the error.
    pub fn explain_error(error: &str, language: Language) -> (r: ErrorExplanation)
        ensures
            language == Language::Rust ==> r.category == rust_category(
                rust_branch(lower_of(error@)),
            ) && r.summary@ == rust_summary(rust_branch(lower_of(error@))) && r.suggestion@
                == rust_suggestion(rust_branch(lower_of(error@))) && (rust_branch(
                lower_of(error@),
            ) == 6 ==> r.explanation@ == error@),
            language == Language::Python ==> r.category == python_category(
                python_branch(lower_of(error@)),
            ) && r.summary@ == python_summary(python_branch(lower_of(error@))) && r.suggestion@
                == python_suggestion(python_branch(lower_of(error@))) && (python_branch(
                lower_of(error@),
            ) == 6 ==> r.explanation@ == error@),
            language != Language::Rust && language != Language::Python ==> r.category
                == ErrorCategory::Unknown && r.summary@ == "Error occurred"@ && r.explanation@
                == error@,
    {
        match language {
            Language::Rust => Self::explain_rust_error(error),
            Language::Python => Self::explain_python_error(error),
            _ => ErrorExplanation::generic(error),
        }
    }

    /// Explain a Rust compilation/runtime error.
    fn explain_rust_error(error: &str) -> (r: ErrorExplanation)
        ensures
            r.category == rust_category(rust_branch(lower_of(error@))),
            r.summary@ == rust_summary(rust_branch(lower_of(error@))),
            r.suggestion@ == rust_suggestion(rust_branch(lower_of(error@))),
            rust_branch(lower_of(error@)) == 6 ==> r.explanation@ == error@,
    {
        let lowered = to_lowercase(error);
        let low = chars_of(lowered.as_str());
        if str_contains(&low, "cannot borrow") {
            let mut concepts: Vec<String> = Vec::new();
            concepts.push("Ownership".to_owned());
            concepts.push("Borrowing".to_owned());
            concepts.push("Lifetimes".to_owned());
            ErrorExplanation {
                category: ErrorCategory::BorrowChecker,
                summary: "Borrow checker error".to_owned(),
                explanation:
                    "Rust's borrow checker prevents data races by ensuring references follow ownership rules.".to_owned(),
                suggestion:
                    "Consider using .clone() to create an owned copy, or restructure your code to avoid overlapping borrows.".to_owned(),
                related_concepts: concepts,
            }
        } else if str_contains(&low, "type mismatch") || (str_contains(&low, "expected")
            && str_contains(&low, "found")) {
            let mut concepts: Vec<String> = Vec::new();
            concepts.push("Type System".to_owned());
            concepts.push("Type Inference".to_owned());
            ErrorExplanation {
                category: ErrorCategory::TypeMismatch,
                summary: "Type mismatch error".to_owned(),
                explanation:
                    "The types don't match what the function or operation expects.".to_owned(),
                suggestion:
                    "Check the function signature and ensure you're passing the correct types. You may need type conversion.".to_owned(),
                related_concepts: concepts,
            }
        } else if str_contains(&low, "cannot find") || str_contains(&low, "not found") {
            let mut concepts: Vec<String> = Vec::new();
            concepts.push("Scope".to_owned());
            concepts.push("Modules".to_owned());
            concepts.push("use statements".to_owned());
            ErrorExplanation {
                category: ErrorCategory::NotFound,
                summary: "Item not found".to_owned(),
                explanation:
                    "The compiler cannot find the variable, function, or type you're referencing.".to_owned(),
                suggestion:
                    "Check for typos in the name. Ensure the item is in scope or properly imported.".to_owned(),
                related_concepts: concepts,
            }
        } else if str_contains(&low, "overflow") {
            let mut concepts: Vec<String> = Vec::new();
            concepts.push("Integer Types".to_owned());
            concepts.push("Overflow".to_owned());
            ErrorExplanation {
                category: ErrorCategory::RuntimeError,
                summary: "Arithmetic overflow".to_owned(),
                explanation:
                    "The calculation resulted in a value too large or too small for the data type.".to_owned(),
                suggestion:
                    "Consider using checked arithmetic methods like checked_add() or a larger integer type.".to_owned(),
                related_concepts: concepts,
            }
        } else if str_contains(&low, "index out of bounds") {
            let mut concepts: Vec<String> = Vec::new();
            concepts.push("Arrays".to_owned());
            concepts.push("Vectors".to_owned());
            concepts.push("Option".to_owned());
            ErrorExplanation {
                category: ErrorCategory::RuntimeError,
                summary: "Index out of bounds".to_owned(),
                explanation:
                    "You tried to access an element at an index that doesn't exist in the collection.".to_owned(),
                suggestion:
                    "Check the length of the collection before accessing. Consider using .get() which returns Option.".to_owned(),
                related_concepts: concepts,
            }
        } else if str_contains(&low, "unwrap") || str_contains(
            &low,
            "called `option::unwrap()` on a `none`",
        ) {
            let mut concepts: Vec<String> = Vec::new();
            concepts.push("Option".to_owned());
            concepts.push("Result".to_owned());
            concepts.push("Error Handling".to_owned());
            ErrorExplanation {
                category: ErrorCategory::RuntimeError,
                summary: "Unwrap on None/Err".to_owned(),
                explanation:
                    "Called unwrap() on a None or Err value, which causes a panic.".to_owned(),
                suggestion:
                    "Use pattern matching, if let, or ? operator instead of unwrap() for proper error handling.".to_owned(),
                related_concepts: concepts,
            }
        } else {
            ErrorExplanation::generic(error)
        }
    }

    /// Explain a Python error.
    fn explain_python_error(error: &str) -> (r: ErrorExplanation)
        ensures
            r.category == python_category(python_branch(lower_of(error@))),
            r.summary@ == python_summary(python_branch(lower_of(error@))),
            r.suggestion@ == python_suggestion(python_branch(lower_of(error@))),
            python_branch(lower_of(error@)) == 6 ==> r.explanation@ == error@,
    {
        let lowered = to_lowercase(error);
        let low = chars_of(lowered.as_str());
        if str_contains(&low, "indentationerror") {
            let mut concepts: Vec<String> = Vec::new();
            concepts.push("Code Blocks".to_owned());
            concepts.push("Syntax".to_owned());
            ErrorExplanation {
                category: ErrorCategory::SyntaxError,
                summary: "Indentation error".to_owned(),
                explanation:
                    "Python uses indentation to define code blocks. Your indentation is inconsistent.".to_owned(),
                suggestion:
                    "Use consistent indentation (4 spaces recommended). Don't mix tabs and spaces.".to_owned(),
                related_concepts: concepts,
            }
        } else if str_contains(&low, "nameerror") {
            let mut concepts: Vec<String> = Vec::new();
            concepts.push("Variables".to_owned());
            concepts.push("Scope".to_owned());
            ErrorExplanation {
                category: ErrorCategory::NotFound,
                summary: "Name not defined".to_owned(),
                explanation:
                    "You're using a variable or function that hasn't been defined yet.".to_owned(),
                suggestion:
                    "Check for typos. Make sure the variable is defined before you use it.".to_owned(),
                related_concepts: concepts,
            }
        } else if str_contains(&low, "typeerror") {
            let mut concepts: Vec<String> = Vec::new();
            concepts.push("Types".to_owned());
            concepts.push("Type Conversion".to_owned());
            ErrorExplanation {
                category: ErrorCategory::TypeMismatch,
                summary: "Type error".to_owned(),
                explanation:
                    "An operation was applied to an object of inappropriate type.".to_owned(),
                suggestion:
                    "Check the types of your variables. You may need to convert between types.".to_owned(),
                related_concepts: concepts,
            }
        } else if str_contains(&low, "indexerror") {
            let mut concepts: Vec<String> = Vec::new();
            concepts.push("Lists".to_owned());
            concepts.push("Indexing".to_owned());
            ErrorExplanation {
                category: ErrorCategory::RuntimeError,
                summary: "Index out of range".to_owned(),
                explanation: "You tried to access a list index that doesn't exist.".to_owned(),
                suggestion:
                    "Check len() before accessing. Remember Python uses 0-based indexing.".to_owned(),
                related_concepts: concepts,
            }
        } else if str_contains(&low, "keyerror") {
            let mut concepts: Vec<String> = Vec::new();
            concepts.push("Dictionaries".to_owned());
            concepts.push("Keys".to_owned());
            ErrorExplanation {
                category: ErrorCategory::RuntimeError,
                summary: "Key not found".to_owned(),
                explanation: "The dictionary key you're looking for doesn't exist.".to_owned(),
                suggestion:
                    "Use .get() method which returns None for missing keys, or check with 'in' operator first.".to_owned(),
                related_concepts: concepts,
            }
        } else if str_contains(&low, "zerodivisionerror") {
            let mut concepts: Vec<String> = Vec::new();
            concepts.push("Arithmetic".to_owned());
            concepts.push("Error Handling".to_owned());
            ErrorExplanation {
                category: ErrorCategory::RuntimeError,
                summary: "Division by zero".to_owned(),
                explanation: "You attempted to divide a number by zero.".to_owned(),
                suggestion: "Add a check before division to ensure the divisor is not zero.".to_owned(),
                related_concepts: concepts,
            }
        } else {
            ErrorExplanation::generic(error)
        }
    }

    /// Generate feedback comparing expected vs actual output.
    pub fn compare_outputs(expected: &str, actual: &str) -> (r: OutputComparison)
        ensures
            r.matches == (trim_seq(expected@) == trim_seq(actual@)),
            r.matches ==> r.difference == DifferenceType::Identical && r.hint is None,
            !r.matches && drop_spaces(trim_seq(expected@)) == drop_spaces(trim_seq(actual@))
                ==> r.difference == DifferenceType::Whitespace,
            !r.matches && drop_spaces(trim_seq(expected@)) != drop_spaces(trim_seq(actual@))
                && lower_of(trim_seq(expected@)) == lower_of(trim_seq(actual@))
                ==> r.difference == DifferenceType::Case,
            !r.matches && drop_spaces(trim_seq(expected@)) != drop_spaces(trim_seq(actual@))
                && lower_of(trim_seq(expected@)) != lower_of(trim_seq(actual@)) && split_lines(
                trim_seq(expected@),
            ).len() != split_lines(trim_seq(actual@)).len() ==> r.difference
                == DifferenceType::LineCount && (match r.hint {
                Some(h) => h@ == "Expected "@ + dec_str(
                    split_lines(trim_seq(expected@)).len() as int,
                ) + " lines but got "@ + dec_str(split_lines(trim_seq(actual@)).len() as int)
                    + "."@,
                None => false,
            }),
            !r.matches && drop_spaces(trim_seq(expected@)) != drop_spaces(trim_seq(actual@))
                && lower_of(trim_seq(expected@)) != lower_of(trim_seq(actual@)) && split_lines(
                trim_seq(expected@),
            ).len() == split_lines(trim_seq(actual@)).len() ==> {
                let el = split_lines(trim_seq(expected@));
                let al = split_lines(trim_seq(actual@));
                let fd = first_diff_idx(el, al);
                &&& r.difference == DifferenceType::Content
                &&& (match r.hint {
                    Some(h) => fd < el.len() && h@ == "Line "@ + dec_str(fd + 1)
                        + " differs: expected '"@ + el[fd] + "', got '"@ + al[fd] + "'"@,
                    None => fd == el.len(),
                })
            },
    {
        let expected_trimmed = trim_str(expected);
        let actual_trimmed = trim_str(actual);

        if crate::strutil::str_eq(expected_trimmed, actual_trimmed) {
            return OutputComparison {
                matches: true,
                difference: DifferenceType::Identical,
                hint: None,
            };
        }

        let expected_chars = chars_of(expected_trimmed);
        let actual_chars = chars_of(actual_trimmed);

        let expected_no_spaces = remove_spaces(&expected_chars);
        let actual_no_spaces = remove_spaces(&actual_chars);
        if vec_char_eq(&expected_no_spaces, &actual_no_spaces) {
            return OutputComparison {
                matches: false,
                difference: DifferenceType::Whitespace,
                hint: Some(
                    "Check your spacing - the content is correct but whitespace differs.".to_owned(),
                ),
            };
        }

        let expected_lower = to_lowercase(expected_trimmed);
        let actual_lower = to_lowercase(actual_trimmed);
        if expected_lower == actual_lower {
            return OutputComparison {
                matches: false,
                difference: DifferenceType::Case,
                hint: Some(
                    "Check capitalization - the content matches but case differs.".to_owned(),
                ),
            };
        }

        let expected_lines = line_ranges(&expected_chars);
        let actual_lines = line_ranges(&actual_chars);

        if expected_lines.len() != actual_lines.len() {
            let mut hint = String::new();
            hint.append("Expected ");
            let e_count = u64_to_string(expected_lines.len() as u64);
            hint.append(e_count.as_str());
            hint.append(" lines but got ");
            let a_count = u64_to_string(actual_lines.len() as u64);
            hint.append(a_count.as_str());
            hint.append(".");
            return OutputComparison {
                matches: false,
                difference: DifferenceType::LineCount,
                hint: Some(hint),
            };
        }

        let n = expected_lines.len();
        let mut k: usize = 0;
        while k < n
            invariant
                k <= n,
                n == expected_lines@.len(),
                n == actual_lines@.len(),
                n == split_lines(expected_chars@).len(),
                n == split_lines(actual_chars@).len(),
                expected_chars@ == trim_seq(expected@),
                actual_chars@ == trim_seq(actual@),
                expected_trimmed@ == trim_seq(expected@),
                actual_trimmed@ == trim_seq(actual@),
                trim_seq(expected@) != trim_seq(actual@),
                drop_spaces(trim_seq(expected@)) != drop_spaces(trim_seq(actual@)),
                lower_of(trim_seq(expected@)) != lower_of(trim_seq(actual@)),
                forall|k0: int|
                    0 <= k0 < expected_lines@.len() ==> (#[trigger] expected_lines@[k0]).0
                        <= expected_lines@[k0].1 <= expected_chars@.len() && expected_chars@.subrange(
                        expected_lines@[k0].0 as int,
                        expected_lines@[k0].1 as int,
                    ) == split_lines(expected_chars@)[k0],
                forall|k0: int|
                    0 <= k0 < actual_lines@.len() ==> (#[trigger] actual_lines@[k0]).0
                        <= actual_lines@[k0].1 <= actual_chars@.len() && actual_chars@.subrange(
                        actual_lines@[k0].0 as int,
                        actual_lines@[k0].1 as int,
                    ) == split_lines(actual_chars@)[k0],
                forall|k0: int|
                    0 <= k0 < k ==> #[trigger] split_lines(expected_chars@)[k0] == split_lines(
                        actual_chars@,
                    )[k0],
            decreases n - k,
        {
            let (es, ee) = expected_lines[k];
            let (as_, ae) = actual_lines[k];
            proof {
                assert((#[trigger] expected_lines@[k as int]).0 <= expected_lines@[k as int].1
                    <= expected_chars@.len());
                assert((#[trigger] actual_lines@[k as int]).0 <= actual_lines@[k as int].1
                    <= actual_chars@.len());
            }
            let lines_differ = !range_eq(&expected_chars, es, ee, &actual_chars, as_, ae);
            if lines_differ {
                proof {
                    lemma_first_diff_idx(
                        split_lines(expected_chars@),
                        split_lines(actual_chars@),
                    );
                    let el = split_lines(expected_chars@);
                    let al = split_lines(actual_chars@);
                    let fd = first_diff_idx(el, al);
                    if fd < k {
                        assert(el[fd] == al[fd]);
                    }
                    if fd > k {
                        assert(el[k as int] == al[k as int]);
                    }
                    assert(fd == k);
                }
                let mut hint = String::new();
                hint.append("Line ");
                let line_no = u64_to_string(k as u64 + 1);
                hint.append(line_no.as_str());
                hint.append(" differs: expected '");
                let exp_line = expected_trimmed.substring_char(es, ee);
                hint.append(exp_line);
                hint.append("', got '");
                let act_line = actual_trimmed.substring_char(as_, ae);
                hint.append(act_line);
                hint.append("'");
                return OutputComparison {
                    matches: false,
                    difference: DifferenceType::Content,
                    hint: Some(hint),
                };
            }
            k = k + 1;
        }

        proof {
            lemma_first_diff_idx(split_lines(expected_chars@), split_lines(actual_chars@));
            let el = split_lines(expected_chars@);
            let al = split_lines(actual_chars@);
            let fd = first_diff_idx(el, al);
            if fd < el.len() {
                assert(el[fd] == al[fd]);
            }
        }
        OutputComparison { matches: false, difference: DifferenceType::Content, hint: None }
    }
}

/// Compare two index ranges of two character vectors for equality.
fn range_eq(a: &Vec<char>, a0: usize, a1: usize, b: &Vec<char>, b0: usize, b1: usize) -> (r: bool)
    requires
        a0 <= a1 <= a@.len(),
        b0 <= b1 <= b@.len(),
    ensures
        r == (a@.subrange(a0 as int, a1 as int) == b@.subrange(b0 as int, b1 as int)),
{
    if a1 - a0 != b1 - b0 {
        proof {
            assert(a@.subrange(a0 as int, a1 as int).len() != b@.subrange(
                b0 as int,
                b1 as int,
            ).len());
        }
        return false;
    }
    let len = a1 - a0;
    let mut i: usize = 0;
    while i < len
        invariant
            i <= len,
            a0 + len == a1 <= a@.len(),
            b0 + len == b1 <= b@.len(),
            forall|j: int| 0 <= j < i ==> #[trigger] a@[a0 + j] == b@[b0 + j],
        decreases len - i,
    {
        if a[a0 + i] != b[b0 + i] {
            proof {
                assert(a@.subrange(a0 as int, a1 as int)[i as int] != b@.subrange(
                    b0 as int,
                    b1 as int,
                )[i as int]);
            }
            return false;
        }
        i = i + 1;
    }
    proof {
        assert forall|j: int|
            0 <= j < a1 - a0 implies a@.subrange(a0 as int, a1 as int)[j] == b@.subrange(
            b0 as int,
            b1 as int,
        )[j] by {
            assert(a@[a0 + j] == b@[b0 + j]);
        }
        assert(a@.subrange(a0 as int, a1 as int) =~= b@.subrange(b0 as int, b1 as int));
    }
    true
}

/// Result of comparing expected vs actual output.
#[derive(Debug, Clone, PartialEq)]
pub struct OutputComparison {
    /// Whether outputs match
    pub matches: bool,
    /// Type of difference
    pub difference: DifferenceType,
    /// Helpful hint
    pub hint: Option<String>,
}

/// Types of output differences.
#[derive(Debug, Clone, Copy, PartialEq, Eq, Structural)]
pub enum DifferenceType {
    /// No difference
    Identical,
    /// Only whitespace differs
    Whitespace,
    /// Only case differs
    Case,
    /// Different number of lines
    LineCount,
    /// Content differs
    Content,
}

} // verus!
