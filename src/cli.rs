use vstd::prelude::*;

verus! {

/// The rounds a session may take when the caller names no bound.
pub const DEFAULT_MAX_ITERATIONS: u8 = 3;

/// What the command line gives: the question, if one was passed, and the
/// bound on rounds.
pub struct Cli {
    /// The main question/topic to research.
    pub question: Option<String>,
    /// Maximum number of iterations.
    pub max_iterations: u8,
    /// Print every raw reply of the reasoning backend.
    pub verbose: bool,
}

} // verus!
