//! The runtime: one session that stores a script, data and keys, and
//! evaluates the script with the scenarios it refers to in place.
//!
//! The program that an evaluation composes is run by whatever the caller
//! hands to `eval`: the session decides what is run and what the outcome
//! means, and leaves the running to the engine behind that function.

use vstd::prelude::*;
use crate::error::{EvalError, EvalFault, LoadError};
use crate::evaluation::{
    composed_view,
    eval_view,
    verdict,
    ComposedProgram,
    Evaluation,
    EvaluationResult,
    ExecutionOutcome,
    ProgramText,
};
use crate::loader::{answered_by, is_run, link_outcome, Resolution, ScenarioLoader};
use crate::resolver::ScenarioResolver;
use crate::syntax::{references, well_formed};
use crate::text::{
    admitted,
    borrow_text,
    borrowed_view,
    copy_text,
    load_view,
    recall_well_formed,
    stored_view,
    well_formed_if_any,
    StoredText,
};

verus! {

/// The texts that a session stores.
pub struct RuntimeState {
    pub script: Option<Seq<char>>,
    pub data: Option<Seq<char>>,
    pub keys: Option<Seq<char>>,
}

impl RuntimeState {
    /// The state of a new session: nothing is stored.
    pub open spec fn empty() -> RuntimeState {
        RuntimeState { script: None, data: None, keys: None }
    }

    /// Every text that is stored is well formed.
    pub open spec fn well_formed(self) -> bool {
        &&& well_formed_if_any(self.script)
        &&& well_formed_if_any(self.data)
        &&& well_formed_if_any(self.keys)
    }

    /// The state after `text` was offered as the script: the text takes the
    /// place of the script where it is well formed, and nothing changes
    /// where it is not.
    pub open spec fn load(self, text: Seq<char>) -> RuntimeState {
        if well_formed(text) {
            RuntimeState { script: Some(text), ..self }
        } else {
            self
        }
    }

    /// The state after `text` was offered as the data.
    pub open spec fn load_data(self, text: Seq<char>) -> RuntimeState {
        if well_formed(text) {
            RuntimeState { data: Some(text), ..self }
        } else {
            self
        }
    }

    /// The state after `text` was offered as the keys.
    pub open spec fn load_keys(self, text: Seq<char>) -> RuntimeState {
        if well_formed(text) {
            RuntimeState { keys: Some(text), ..self }
        } else {
            self
        }
    }

    /// The questions that an evaluation in this state puts to the resolver
    /// are `asked`: none without a script, else one run over the references
    /// of the script.
    pub open spec fn asks(self, asked: Seq<Resolution>) -> bool {
        match self.script {
            None => asked.len() == 0,
            Some(script) => is_run(references(script), asked),
        }
    }

    /// What an evaluation in this state comes to before anything is run,
    /// when the resolver's answers were `asked`: `NoScript` without a
    /// script, the failure of a failed resolution, else the program to run.
    pub open spec fn plan(self, asked: Seq<Resolution>) -> Result<ProgramText, EvalFault> {
        match self.script {
            None => Err(EvalFault::NoScript),
            Some(script) => match link_outcome(script, asked) {
                Ok(source) => Ok(ProgramText { source, data: self.data, keys: self.keys }),
                Err(fault) => Err(fault),
            },
        }
    }
}

/// Where a session stands.
#[derive(Debug, Clone, Copy, PartialEq, Eq, Structural)]
pub enum Phase {
    /// No script is stored.
    Empty,
    /// A script is stored and has not been evaluated since it was loaded.
    ScriptLoaded,
    /// The stored script has been evaluated at least once.
    Ready,
}

impl Phase {
    /// The phase after a script was offered, and stored or refused.
    pub open spec fn after_load(self, stored: bool) -> Phase {
        if stored {
            Phase::ScriptLoaded
        } else {
            self
        }
    }

    /// The phase after an evaluation, however it ended.
    pub open spec fn after_eval(self) -> Phase {
        match self {
            Phase::Empty => Phase::Empty,
            _ => Phase::Ready,
        }
    }
}

/// One session: a script, data and keys, each stored or not, and the
/// loader through which scenarios are resolved.
pub struct ScriptRuntime<R> {
    script: Option<StoredText>,
    data: Option<StoredText>,
    keys: Option<StoredText>,
    evaluated: bool,
    loader: ScenarioLoader<R>,
}

impl<R> View for ScriptRuntime<R> {
    type V = RuntimeState;

    closed spec fn view(&self) -> RuntimeState {
        RuntimeState {
            script: stored_view(self.script),
            data: stored_view(self.data),
            keys: stored_view(self.keys),
        }
    }
}

impl<R: ScenarioResolver> ScriptRuntime<R> {
    /// The resolver that this session was made with.
    pub closed spec fn resolver(&self) -> R {
        self.loader.resolver()
    }

    /// Every question that this session has put to its resolver, oldest first.
    pub closed spec fn history(&self) -> Seq<Resolution> {
        self.loader.history()
    }

    /// What was recorded after `before` was.
    pub open spec fn asked_since(&self, before: &Self) -> Seq<Resolution> {
        self.history().skip(before.history().len() as int)
    }

    /// Where this session stands.
    pub closed spec fn phase_of(&self) -> Phase {
        if self.script is None {
            Phase::Empty
        } else if self.evaluated {
            Phase::Ready
        } else {
            Phase::ScriptLoaded
        }
    }

    /// Brings into the open what holds of every stored text.
    fn recall_stored(&self)
        ensures
            self@.well_formed(),
    {
        recall_well_formed(&self.script);
        recall_well_formed(&self.data);
        recall_well_formed(&self.keys);
    }

    /// Makes a session around `resolver`. Nothing is stored in it and its
    /// resolver has not been asked anything.
    pub fn new(resolver: R) -> (runtime: Self)
        ensures
            runtime@ == RuntimeState::empty(),
            runtime.phase_of() == Phase::Empty,
            runtime.resolver() == resolver,
            runtime.history() == Seq::<Resolution>::empty(),
    {
        ScriptRuntime {
            script: None,
            data: None,
            keys: None,
            evaluated: false,
            loader: ScenarioLoader::new(resolver),
        }
    }

    /// Stores `script` as it is, in place of any script stored before. A
    /// script that is not well formed is refused, and what was stored stays.
    /// The script is not read for references here; that is left to `eval`.
    pub fn load(&mut self, script: &str) -> (loaded: Result<(), LoadError>)
        ensures
            load_view(loaded) == admitted(script@),
            final(self)@ == old(self)@.load(script@),
            final(self)@.well_formed(),
            final(self).phase_of() == old(self).phase_of().after_load(loaded is Ok),
            final(self).resolver() == old(self).resolver(),
            final(self).history() == old(self).history(),
    {
        self.recall_stored();
        match StoredText::accept(script) {
            Ok(stored) => {
                self.script = Some(stored);
                self.evaluated = false;
                Ok(())
            },
            Err(error) => Err(error),
        }
    }

    /// Stores `data` as it is, in place of any data stored before. Data that
    /// is not well formed is refused, and what was stored stays.
    pub fn load_data(&mut self, data: &str) -> (loaded: Result<(), LoadError>)
        ensures
            load_view(loaded) == admitted(data@),
            final(self)@ == old(self)@.load_data(data@),
            final(self)@.well_formed(),
            final(self).phase_of() == old(self).phase_of(),
            final(self).resolver() == old(self).resolver(),
            final(self).history() == old(self).history(),
    {
        self.recall_stored();
        match StoredText::accept(data) {
            Ok(stored) => {
                self.data = Some(stored);
                Ok(())
            },
            Err(error) => Err(error),
        }
    }

    /// Stores `keys` as they are, in place of any keys stored before. Keys
    /// that are not well formed are refused, and what was stored stays.
    pub fn load_keys(&mut self, keys: &str) -> (loaded: Result<(), LoadError>)
        ensures
            load_view(loaded) == admitted(keys@),
            final(self)@ == old(self)@.load_keys(keys@),
            final(self)@.well_formed(),
            final(self).phase_of() == old(self).phase_of(),
            final(self).resolver() == old(self).resolver(),
            final(self).history() == old(self).history(),
    {
        self.recall_stored();
        match StoredText::accept(keys) {
            Ok(stored) => {
                self.keys = Some(stored);
                Ok(())
            },
            Err(error) => Err(error),
        }
    }

    /// The stored script, if there is one.
    pub fn script(&self) -> (stored: Option<&str>)
        ensures
            borrowed_view(stored) == self@.script,
            self@.well_formed(),
    {
        self.recall_stored();
        borrow_text(&self.script)
    }

    /// The stored data, if there is any.
    pub fn data(&self) -> (stored: Option<&str>)
        ensures
            borrowed_view(stored) == self@.data,
            self@.well_formed(),
    {
        self.recall_stored();
        borrow_text(&self.data)
    }

    /// The stored keys, if there are any.
    pub fn keys(&self) -> (stored: Option<&str>)
        ensures
            borrowed_view(stored) == self@.keys,
            self@.well_formed(),
    {
        self.recall_stored();
        borrow_text(&self.keys)
    }

    /// Where this session stands.
    pub fn phase(&self) -> (phase: Phase)
        ensures
            phase == self.phase_of(),
            (phase == Phase::Empty) <==> self@.script is None,
    {
        if self.script.is_none() {
            Phase::Empty
        } else if self.evaluated {
            Phase::Ready
        } else {
            Phase::ScriptLoaded
        }
    }

    /// The first half of an evaluation: composes the program to run. Without
    /// a script this fails with `NoScript` and the resolver is not asked.
    /// With one, the resolver is asked once for every reference in the script,
    /// in the order in which they are written, until one fails; that failure
    /// is the answer, with the name that was asked for. Where none fails, the
    /// program is the script with every reference replaced by what the
    /// resolver brought for it, together with the stored data and keys.
    /// Every question on the record is a call of the resolver, with the
    /// answer that it gave. What is stored stays as it is.
    pub fn compose(&mut self) -> (composed: Result<ComposedProgram, EvalError>)
        ensures
            final(self)@ == old(self)@,
            final(self)@.well_formed(),
            final(self).phase_of() == old(self).phase_of().after_eval(),
            final(self).resolver() == old(self).resolver(),
            old(self).history().is_prefix_of(final(self).history()),
            old(self)@.asks(final(self).asked_since(old(self))),
            answered_by(old(self).resolver(), final(self).asked_since(old(self))),
            composed_view(composed) == old(self)@.plan(final(self).asked_since(old(self))),
    {
        self.recall_stored();
        match &self.script {
            None => Err(EvalError::NoScript),
            Some(script) => {
                self.evaluated = true;
                match self.loader.link(script.as_str()) {
                    Ok(source) => {
                        let data = copy_text(&self.data);
                        let keys = copy_text(&self.keys);
                        Ok(ComposedProgram { source, data, keys })
                    },
                    Err(error) => Err(error),
                }
            },
        }
    }

    /// Evaluates the stored script: composes the program as `compose` does,
    /// hands it to `execute`, which runs it, and answers with what the run
    /// came to. `execute` is called once where a program was composed and
    /// not at all where composing failed. What is stored stays as it is,
    /// whatever the answer.
    pub fn eval<F: FnOnce(ComposedProgram) -> ExecutionOutcome>(&mut self, execute: F) -> (answer:
        Result<EvaluationResult, EvalError>)
        requires
            forall|program: ComposedProgram| call_requires(execute, (program,)),
        ensures
            final(self)@ == old(self)@,
            final(self)@.well_formed(),
            final(self).phase_of() == old(self).phase_of().after_eval(),
            final(self).resolver() == old(self).resolver(),
            old(self).history().is_prefix_of(final(self).history()),
            old(self)@.asks(final(self).asked_since(old(self))),
            answered_by(old(self).resolver(), final(self).asked_since(old(self))),
            match old(self)@.plan(final(self).asked_since(old(self))) {
                Err(fault) => eval_view(answer) == Err::<Evaluation, EvalFault>(fault),
                Ok(program) => exists|handed: ComposedProgram, outcome: ExecutionOutcome|
                    handed@ == program && call_ensures(execute, (handed,), outcome) && eval_view(
                        answer,
                    ) == verdict(outcome@),
            },
            !(answer matches Ok(EvaluationResult::Failure(_, _))),
    {
        match self.compose() {
            Err(error) => Err(error),
            Ok(program) => {
                let outcome = execute(program);
                EvaluationResult::from_outcome(outcome)
            },
        }
    }
}

} // verus!
