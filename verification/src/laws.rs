//! What holds of every session, stated over the record of questions that
//! `eval` and `compose` speak of in their contracts.
//!
//! In each law `state` is what a session stores when an evaluation begins,
//! and `asked` is what that evaluation adds to the record of its loader.
//! `RuntimeState::asks` is what `eval` promises of the two, and
//! `RuntimeState::plan` is what it answers before anything is run. That
//! every entry of `asked` is a call of the session's resolver is promised
//! beside them, by `answered_by`.

use vstd::prelude::*;
use crate::error::EvalFault;
use crate::loader::Resolution;
use crate::runtime::RuntimeState;
use crate::syntax::{opens_at, references, references_from, well_formed};

verus! {

/// The names that were asked for, in order.
pub open spec fn names_of(asked: Seq<Resolution>) -> Seq<Seq<char>> {
    asked.map_values(|resolution: Resolution| resolution.name)
}

/// How often `name` stands in `names`.
pub open spec fn occurrences(names: Seq<Seq<char>>, name: Seq<char>) -> nat
    decreases names.len(),
{
    if names.len() == 0 {
        0
    } else {
        occurrences(names.drop_last(), name) + if names.last() == name {
            1nat
        } else {
            0nat
        }
    }
}

/// A text that holds the opener nowhere refers to no scenario.
pub proof fn law_no_opener_no_reference(text: Seq<char>, from: int)
    requires
        forall|at: int| !opens_at(text, at),
    ensures
        references_from(text, from).len() == 0,
    decreases text.len() - from,
{
    if 0 <= from < text.len() {
        law_no_opener_no_reference(text, from + 1);
    }
}

/// Evaluating a script that refers to no scenario asks the resolver nothing.
pub proof fn law_no_reference_no_question(state: RuntimeState, asked: Seq<Resolution>)
    requires
        state.script matches Some(script) && references(script).len() == 0,
        state.asks(asked),
    ensures
        asked.len() == 0,
{
}

/// The resolver is asked in the order in which the script is written: the
/// names asked for are the first references of the script, one question for
/// one reference, whether the evaluation fails or not.
pub proof fn law_questions_follow_references(state: RuntimeState, asked: Seq<Resolution>)
    requires
        state.script is Some,
        state.asks(asked),
    ensures
        names_of(asked).is_prefix_of(references(state.script->Some_0)),
{
    let written = references(state.script->Some_0);
    assert(names_of(asked) =~= written.subrange(0, asked.len() as int));
}

/// Nothing is remembered between questions: where every question is
/// answered, the names asked for are the references of the script, in the
/// order in which they are written, so a name that is written `k` times is
/// asked for `k` times.
pub proof fn law_one_question_per_occurrence(
    state: RuntimeState,
    asked: Seq<Resolution>,
    name: Seq<char>,
)
    requires
        state.script is Some,
        state.asks(asked),
        state.plan(asked) is Ok,
    ensures
        names_of(asked) == references(state.script->Some_0),
        occurrences(names_of(asked), name) == occurrences(references(state.script->Some_0), name),
{
    assert(names_of(asked) =~= references(state.script->Some_0));
}

/// One failed question fails the evaluation: it is the last question that
/// was asked, and the evaluation answers with the name asked for and the
/// resolver's reason.
pub proof fn law_failed_question_fails_evaluation(
    state: RuntimeState,
    asked: Seq<Resolution>,
    k: int,
)
    requires
        state.script is Some,
        state.asks(asked),
        0 <= k < asked.len(),
        asked[k].answer is Err,
    ensures
        k == asked.len() - 1,
        state.plan(asked) == Err::<crate::evaluation::ProgramText, EvalFault>(
            EvalFault::ScenarioResolutionFailed(asked[k].name, asked[k].answer->Err_0),
        ),
{
}

/// Of two loads into the same place the later one wins, where it is
/// accepted: the state is as if the earlier had never been made, and the
/// next program is composed from the later text.
pub proof fn law_latest_load_wins(
    state: RuntimeState,
    first: Seq<char>,
    second: Seq<char>,
    asked: Seq<Resolution>,
)
    requires
        well_formed(second),
    ensures
        state.load_data(first).load_data(second) == state.load_data(second),
        state.load_keys(first).load_keys(second) == state.load_keys(second),
        state.load(first).load(second) == state.load(second),
        state.load_data(first).load_data(second).plan(asked) matches Ok(program) ==> program.data
            == Some(second),
        state.load_keys(first).load_keys(second).plan(asked) matches Ok(program) ==> program.keys
            == Some(second),
{
}

/// Without a script an evaluation answers `NoScript`. A new session has no
/// script, and loading data or keys gives it none.
pub proof fn law_no_script_no_evaluation(
    state: RuntimeState,
    data: Seq<char>,
    keys: Seq<char>,
    asked: Seq<Resolution>,
)
    requires
        state.script is None,
    ensures
        state.plan(asked) == Err::<crate::evaluation::ProgramText, EvalFault>(EvalFault::NoScript),
        RuntimeState::empty().script is None,
        state.load_data(data).script is None,
        state.load_keys(keys).script is None,
{
}

} // verus!
