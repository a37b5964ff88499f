//! The loader stands between the engine and the resolver. Every question to
//! the resolver goes through `ScenarioLoader::read_scenario`, which keeps a
//! ghost record of the question and of the answer. The contracts of the
//! engine are stated over that record: it says how often the resolver was
//! asked, for which names, in which order, and what it answered. Every
//! entry of the record is tied to the resolver itself: it holds a name and
//! an answer that a call of `resolve` with that name gave.

use vstd::prelude::*;
use crate::error::{EvalError, EvalFault, ResolverError, ResolverFault};
use crate::resolver::ScenarioResolver;
use crate::syntax::{references, scenario_references, splice, splice_sources, texts};

verus! {

/// One question to the resolver and its answer.
pub struct Resolution {
    pub name: Seq<char>,
    pub answer: Result<Seq<char>, ResolverFault>,
}

/// What an answer of the resolver stands for in contracts.
pub open spec fn answer_view(answer: Result<String, ResolverError>) -> Result<
    Seq<char>,
    ResolverFault,
> {
    match answer {
        Ok(source) => Ok(source@),
        Err(cause) => Err(cause@),
    }
}

/// The last of `asked` is a failure.
pub open spec fn failed(asked: Seq<Resolution>) -> bool {
    asked.len() > 0 && asked.last().answer is Err
}

/// `asked` is what resolving `names` one after the other records: one
/// question per name, in the order of `names`, up to and including the
/// first failure, and all of `names` where none fails.
pub open spec fn is_run(names: Seq<Seq<char>>, asked: Seq<Resolution>) -> bool {
    &&& asked.len() <= names.len()
    &&& forall|k: int| 0 <= k < asked.len() ==> (#[trigger] asked[k]).name == names[k]
    &&& forall|k: int| 0 <= k < asked.len() - 1 ==> (#[trigger] asked[k]).answer is Ok
    &&& asked.len() < names.len() ==> failed(asked)
}

/// Every entry of `asked` is a call of `resolver`: it holds the name that
/// some call of `resolve` was made with, and the answer that the call gave.
pub open spec fn answered_by<R: ScenarioResolver>(resolver: R, asked: Seq<Resolution>) -> bool {
    forall|k: int|
        0 <= k < asked.len() ==> exists|name: &str, answer: Result<String, ResolverError>|
            name@ == (#[trigger] asked[k]).name && answer_view(answer) == asked[k].answer
                && call_ensures(R::resolve, (&resolver, name), answer)
}

/// The source that a resolution brought, the empty text for a failure.
pub open spec fn source_of(resolution: Resolution) -> Seq<char> {
    match resolution.answer {
        Ok(source) => source,
        Err(_) => Seq::empty(),
    }
}

/// The sources that `asked` brought, in order.
pub open spec fn sources_of(asked: Seq<Resolution>) -> Seq<Seq<char>> {
    asked.map_values(|resolution: Resolution| source_of(resolution))
}

/// What resolving comes to when the resolver's answers were `asked`: the
/// sources that were brought, or, for a failed run, the name asked for last
/// with the resolver's reason.
pub open spec fn resolve_outcome(asked: Seq<Resolution>) -> Result<Seq<Seq<char>>, EvalFault> {
    if asked.len() > 0 {
        match asked.last().answer {
            Ok(_) => Ok(sources_of(asked)),
            Err(cause) => Err(EvalFault::ScenarioResolutionFailed(asked.last().name, cause)),
        }
    } else {
        Ok(sources_of(asked))
    }
}

/// What linking `script` comes to when the resolver's answers were `asked`:
/// the failure of a failed run, else the script with every reference
/// replaced by the source that was brought for it.
pub open spec fn link_outcome(script: Seq<char>, asked: Seq<Resolution>) -> Result<
    Seq<char>,
    EvalFault,
> {
    match resolve_outcome(asked) {
        Ok(sources) => Ok(splice(script, sources)),
        Err(fault) => Err(fault),
    }
}

/// What a result of resolving stands for in contracts.
pub open spec fn found_view(sources: Result<Vec<String>, EvalError>) -> Result<
    Seq<Seq<char>>,
    EvalFault,
> {
    match sources {
        Ok(found) => Ok(texts(found@)),
        Err(error) => Err(error@),
    }
}

/// What a result of linking stands for in contracts.
pub open spec fn linked_view(linked: Result<String, EvalError>) -> Result<Seq<char>, EvalFault> {
    match linked {
        Ok(text) => Ok(text@),
        Err(error) => Err(error@),
    }
}

/// A resolver together with the record of what it was asked.
pub struct ScenarioLoader<R> {
    resolver: R,
    history: Ghost<Seq<Resolution>>,
}

impl<R: ScenarioResolver> ScenarioLoader<R> {
    /// The resolver that this loader asks.
    pub closed spec fn resolver(&self) -> R {
        self.resolver
    }

    /// Every question that this loader has put to its resolver, oldest first.
    pub closed spec fn history(&self) -> Seq<Resolution> {
        self.history@
    }

    /// What was recorded after `before` was.
    pub open spec fn asked_since(&self, before: &Self) -> Seq<Resolution> {
        self.history().skip(before.history().len() as int)
    }

    /// Wraps `resolver`; nothing has been asked yet.
    pub fn new(resolver: R) -> (loader: Self)
        ensures
            loader.resolver() == resolver,
            loader.history() == Seq::<Resolution>::empty(),
    {
        ScenarioLoader { resolver, history: Ghost(Seq::empty()) }
    }

    /// Asks the resolver for the scenario `name`, once, and hands its answer on.
    pub fn read_scenario(&mut self, name: &str) -> (answer: Result<String, ResolverError>)
        requires
            name@.len() > 0,
        ensures
            final(self).resolver() == old(self).resolver(),
            call_ensures(R::resolve, (&old(self).resolver(), name), answer),
            final(self).history() == old(self).history().push(
                Resolution { name: name@, answer: answer_view(answer) },
            ),
    {
        let answer = self.resolver.resolve(name);
        proof {
            self.history@ = self.history@.push(
                Resolution { name: name@, answer: answer_view(answer) },
            );
        }
        answer
    }

    /// Resolves `names` one after the other and stops at the first failure.
    pub fn resolve_all(&mut self, names: &Vec<String>) -> (sources: Result<Vec<String>, EvalError>)
        requires
            forall|k: int| 0 <= k < names.len() ==> (#[trigger] names[k])@.len() > 0,
        ensures
            final(self).resolver() == old(self).resolver(),
            old(self).history().is_prefix_of(final(self).history()),
            is_run(texts(names@), final(self).asked_since(old(self))),
            answered_by(old(self).resolver(), final(self).asked_since(old(self))),
            found_view(sources) == resolve_outcome(final(self).asked_since(old(self))),
    {
        let mut found: Vec<String> = Vec::new();
        let mut k: usize = 0;
        while k < names.len()
            invariant
                k <= names.len(),
                forall|j: int| 0 <= j < names.len() ==> (#[trigger] names[j])@.len() > 0,
                self.resolver() == old(self).resolver(),
                old(self).history().is_prefix_of(self.history()),
                self.asked_since(old(self)).len() == k,
                !failed(self.asked_since(old(self))),
                is_run(texts(names@).take(k as int), self.asked_since(old(self))),
                answered_by(old(self).resolver(), self.asked_since(old(self))),
                texts(found@) == sources_of(self.asked_since(old(self))),
            decreases names.len() - k,
        {
            let ghost before = self.asked_since(old(self));
            let name = names[k].as_str();
            let answer = self.read_scenario(name);
            let ghost entry = Resolution { name: name@, answer: answer_view(answer) };
            proof {
                assert(self.asked_since(old(self)) =~= before.push(entry));
            }
            match answer {
                Ok(source) => {
                    proof {
                        assert(texts(found@.push(source)) =~= texts(found@).push(source@));
                    }
                    found.push(source);
                },
                Err(cause) => {
                    return Err(EvalError::ScenarioResolutionFailed(names[k].clone(), cause));
                },
            }
            k += 1;
        }
        Ok(found)
    }

    /// Links `script`: lists its references, resolves them in the order in
    /// which they are written, and, if every one resolved, replaces each by
    /// the source brought for it. One failure ends the whole; nothing is
    /// composed then.
    pub fn link(&mut self, script: &str) -> (linked: Result<String, EvalError>)
        ensures
            final(self).resolver() == old(self).resolver(),
            old(self).history().is_prefix_of(final(self).history()),
            is_run(references(script@), final(self).asked_since(old(self))),
            answered_by(old(self).resolver(), final(self).asked_since(old(self))),
            linked_view(linked) == link_outcome(script@, final(self).asked_since(old(self))),
    {
        let names = scenario_references(script);
        match self.resolve_all(&names) {
            Ok(found) => Ok(splice_sources(script, &found)),
            Err(error) => Err(error),
        }
    }
}

} // verus!
