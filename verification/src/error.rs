//! The errors that the rewriter reports to its caller.

use vstd::prelude::*;
use vstd::string::StringExecFns;

verus! {

/// Why an engine could not be built or its mode could not be switched.
#[derive(Debug, PartialEq, Eq)]
pub enum ReplacerError {
    /// The pattern at position `index` of the rule list does not compile.
    PatternCompile { index: usize, pattern: String },
    /// A pool of `workers` worker threads could not be started.
    PoolProvision { workers: usize },
}

impl ReplacerError {
    /// The text that `message` puts before the offending pattern.
    pub open spec fn compile_prefix() -> Seq<char> {
        "Error compile regex: "@
    }

    /// The text that `message` gives for a pool that did not start.
    pub open spec fn pool_text() -> Seq<char> {
        "Error build thread pool"@
    }

    /// Whether this is the error for the pattern `pattern` at position
    /// `index` of a rule list.
    pub open spec fn rejects_pattern(&self, index: int, pattern: Seq<char>) -> bool {
        match self {
            ReplacerError::PatternCompile { index: i, pattern: p } => *i == index && p@ == pattern,
            ReplacerError::PoolProvision { .. } => false,
        }
    }

    /// Whether this is the error for a pool of `workers` threads that did
    /// not start.
    pub open spec fn rejects_pool(&self, workers: int) -> bool {
        match self {
            ReplacerError::PatternCompile { .. } => false,
            ReplacerError::PoolProvision { workers: w } => *w == workers,
        }
    }

    /// The message of this error, as a sequence of characters.
    pub open spec fn message_spec(&self) -> Seq<char> {
        match self {
            ReplacerError::PatternCompile { pattern, .. } => Self::compile_prefix() + pattern@,
            ReplacerError::PoolProvision { .. } => Self::pool_text(),
        }
    }

    /// A one-line description of the error, naming the offending pattern
    /// where there is one.
    pub fn message(&self) -> (out: String)
        ensures
            out@ == self.message_spec(),
    {
        match self {
            ReplacerError::PatternCompile { pattern, .. } => {
                String::from_str("Error compile regex: ").concat(pattern.as_str())
            },
            ReplacerError::PoolProvision { .. } => String::from_str("Error build thread pool"),
        }
    }
}

} // verus!
