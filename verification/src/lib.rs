//! A batch text rewriter: an ordered list of pattern/replacement rules is
//! compiled once and then applied to every text of a batch, on the calling
//! thread or on a bounded pool of workers. The execution mode is a
//! performance knob only: what a batch is rewritten to depends on the rules
//! and on each text alone.

pub mod engine;
pub mod error;
pub mod laws;
pub mod matcher;
pub mod pool;
pub mod rule;

pub use engine::RegexReplacer;
pub use error::ReplacerError;
pub use pool::{ExecutionMode, WorkerPool};
pub use rule::{Rule, RuleSet, RuleSpec};
