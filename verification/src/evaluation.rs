//! What an evaluation hands to the engine that runs programs, what it takes
//! back from it, and what it reports to its caller.

use vstd::prelude::*;
use crate::error::{ErrorKind, EvalError, EvalFault};
use crate::text::text_of;

verus! {

/// The unit that is run: the script with every scenario in place, and the
/// data and the keys that go with it.
#[derive(Debug, Clone, PartialEq, Eq)]
pub struct ComposedProgram {
    pub source: String,
    pub data: Option<String>,
    pub keys: Option<String>,
}

/// What a `ComposedProgram` stands for in contracts.
pub struct ProgramText {
    pub source: Seq<char>,
    pub data: Option<Seq<char>>,
    pub keys: Option<Seq<char>>,
}

impl View for ComposedProgram {
    type V = ProgramText;

    open spec fn view(&self) -> ProgramText {
        ProgramText { source: self.source@, data: text_of(self.data), keys: text_of(self.keys) }
    }
}

/// What running a composed program came to, as the engine that ran it reports it.
#[derive(Debug, Clone, PartialEq, Eq)]
pub enum ExecutionOutcome {
    /// The program ran to its end; this is all that it wrote, which may be nothing.
    Completed(String),
    /// The program failed; this is the engine's account of it.
    Failed(String),
}

/// What an `ExecutionOutcome` stands for in contracts.
pub enum Outcome {
    Completed(Seq<char>),
    Failed(Seq<char>),
}

impl View for ExecutionOutcome {
    type V = Outcome;

    open spec fn view(&self) -> Outcome {
        match self {
            ExecutionOutcome::Completed(output) => Outcome::Completed(output@),
            ExecutionOutcome::Failed(detail) => Outcome::Failed(detail@),
        }
    }
}

/// How an evaluation ended.
#[derive(Debug, Clone, PartialEq, Eq)]
pub enum EvaluationResult {
    /// The program wrote this text, which is not empty.
    Output(String),
    /// The program ran to its end and wrote nothing.
    NoOutput,
    /// The evaluation failed; the kind and the message of the failure.
    Failure(ErrorKind, String),
}

/// What an `EvaluationResult` stands for in contracts.
pub enum Evaluation {
    Output(Seq<char>),
    NoOutput,
    Failure(ErrorKind, Seq<char>),
}

impl View for EvaluationResult {
    type V = Evaluation;

    open spec fn view(&self) -> Evaluation {
        match self {
            EvaluationResult::Output(output) => Evaluation::Output(output@),
            EvaluationResult::NoOutput => Evaluation::NoOutput,
            EvaluationResult::Failure(kind, message) => Evaluation::Failure(*kind, message@),
        }
    }
}

/// What a composed program, or the failure to compose one, stands for in contracts.
pub open spec fn composed_view(composed: Result<ComposedProgram, EvalError>) -> Result<
    ProgramText,
    EvalFault,
> {
    match composed {
        Ok(program) => Ok(program@),
        Err(error) => Err(error@),
    }
}

/// What an evaluation's answer stands for in contracts.
pub open spec fn eval_view(answer: Result<EvaluationResult, EvalError>) -> Result<
    Evaluation,
    EvalFault,
> {
    match answer {
        Ok(result) => Ok(result@),
        Err(error) => Err(error@),
    }
}

/// The answer that an evaluation gives for an outcome of the run: the
/// output where there is some, `NoOutput` where the program wrote nothing,
/// and the failure of a failed run.
pub open spec fn verdict(outcome: Outcome) -> Result<Evaluation, EvalFault> {
    match outcome {
        Outcome::Completed(output) => if output.len() > 0 {
            Ok(Evaluation::Output(output))
        } else {
            Ok(Evaluation::NoOutput)
        },
        Outcome::Failed(detail) => Err(EvalFault::ExecutionFailed(detail)),
    }
}

/// An answer with its failure folded in: what succeeded stays, and a
/// failure becomes `Failure` with its kind and its message.
pub open spec fn settled(answer: Result<Evaluation, EvalFault>) -> Evaluation {
    match answer {
        Ok(result) => result,
        Err(fault) => Evaluation::Failure(fault.kind(), fault.message()),
    }
}

impl EvaluationResult {
    /// Turns what the run came to into the answer of the evaluation.
    pub fn from_outcome(outcome: ExecutionOutcome) -> (answer: Result<EvaluationResult, EvalError>)
        ensures
            eval_view(answer) == verdict(outcome@),
    {
        match outcome {
            ExecutionOutcome::Completed(output) => {
                if output.as_str().is_empty() {
                    Ok(EvaluationResult::NoOutput)
                } else {
                    Ok(EvaluationResult::Output(output))
                }
            },
            ExecutionOutcome::Failed(detail) => Err(EvalError::ExecutionFailed(detail)),
        }
    }

    /// Folds the failure of an evaluation into its result, for callers that
    /// want one value for every ending.
    pub fn from_answer(answer: Result<EvaluationResult, EvalError>) -> (result: EvaluationResult)
        ensures
            result@ == settled(eval_view(answer)),
    {
        match answer {
            Ok(result) => result,
            Err(error) => {
                let kind = error.kind();
                let message = error.message();
                EvaluationResult::Failure(kind, message)
            },
        }
    }
}

} // verus!
