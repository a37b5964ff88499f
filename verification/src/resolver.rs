//! The capability by which the engine obtains the source of a scenario.

use vstd::prelude::*;
use crate::error::ResolverError;

verus! {

/// Something that can turn the name of a scenario into its source.
///
/// The engine asks with a non-empty name and takes whatever comes back as
/// it is: a text, the empty text too, is the scenario's source, and a
/// failure ends the evaluation that asked. An implementation may call into logic that the engine knows
/// nothing about; whatever goes wrong there has to come back as a
/// `ResolverError`, never as a panic and never as an empty text that stands
/// for "nothing found".
pub trait ScenarioResolver {
    /// Returns the source of the scenario `name`, or the reason why there is none.
    fn resolve(&self, name: &str) -> (answer: Result<String, ResolverError>)
        requires
            name@.len() > 0,
    ;
}

} // verus!
