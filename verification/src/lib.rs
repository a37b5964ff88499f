//! A small engine that links named scenarios into a script and evaluates the
//! composed program.
//!
//! A session (`ScriptRuntime`) stores a script, data and keys. Evaluating it
//! lists the scenarios that the script refers to, asks a `ScenarioResolver`
//! for the source of each, puts the sources in place of the references, and
//! hands the composed program to the engine that runs it.

pub mod error;
pub mod evaluation;
pub mod laws;
pub mod loader;
pub mod resolver;
pub mod runtime;
pub mod syntax;
pub mod text;

pub use crate::error::{ErrorKind, EvalError, FormatDetail, LoadError, ResolverError};
pub use crate::evaluation::{ComposedProgram, EvaluationResult, ExecutionOutcome};
pub use crate::loader::ScenarioLoader;
pub use crate::resolver::ScenarioResolver;
pub use crate::runtime::{Phase, ScriptRuntime};
