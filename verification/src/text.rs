//! Which texts a session takes in, and how it keeps them.
//!
//! A script, data and keys are opaque to the session but for one rule: the
//! engine that runs a composed program takes its inputs as NUL-terminated
//! strings, so a text with a NUL character inside can never be run. Such a
//! text is refused when it is offered, with what leads up to the NUL as an
//! excerpt.
//!
//! The rule is held on what is loaded, and on nothing else. What a resolver
//! brings is put into the program as it comes, NUL or not: the stored
//! script, the data and the keys of a composed program are well formed, its
//! source only as far as the scenarios in it are. A source with a NUL is
//! left to the engine, which fails the run.

use vstd::prelude::*;
use crate::error::{FormatDetail, FormatFault, LoadError, LoadFault};
use crate::syntax::{excerpt, excerpt_before, first_nul, position_from, well_formed};

verus! {

/// The failure that `text` is refused with: the reason, and what leads up
/// to the first NUL in it.
pub open spec fn format_fault(text: Seq<char>) -> LoadFault {
    LoadFault::InvalidFormat(
        FormatFault {
            reason: "text holds a NUL character"@,
            excerpt: excerpt_before(text, position_from(text, '\0', 0)),
        },
    )
}

/// Whether `text` may be stored: yes where it is well formed, else the
/// failure it is refused with.
pub open spec fn admitted(text: Seq<char>) -> Result<(), LoadFault> {
    if well_formed(text) {
        Ok(())
    } else {
        Err(format_fault(text))
    }
}

/// What the result of a load stands for in contracts.
pub open spec fn load_view(loaded: Result<(), LoadError>) -> Result<(), LoadFault> {
    match loaded {
        Ok(()) => Ok(()),
        Err(error) => Err(error@),
    }
}

/// Decides whether `text` may be stored.
pub fn check_text(text: &str) -> (checked: Result<(), LoadError>)
    ensures
        load_view(checked) == admitted(text@),
{
    match first_nul(text) {
        None => Ok(()),
        Some(at) => {
            let reason = String::from_str("text holds a NUL character");
            let cut = excerpt(text, at);
            Err(LoadError::InvalidFormat(FormatDetail { reason, excerpt: cut }))
        },
    }
}

/// A text that was accepted for storing. `StoredText::accept` is the only
/// way to make one, so every stored text is well formed.
pub struct StoredText {
    text: String,
}

impl View for StoredText {
    type V = Seq<char>;

    closed spec fn view(&self) -> Seq<char> {
        self.text@
    }
}

impl StoredText {
    #[verifier::type_invariant]
    spec fn holds_no_nul(self) -> bool {
        well_formed(self.text@)
    }

    /// Takes a copy of `text` for storing, or refuses it.
    pub fn accept(text: &str) -> (accepted: Result<StoredText, LoadError>)
        ensures
            match accepted {
                Ok(stored) => admitted(text@) is Ok && stored@ == text@,
                Err(error) => admitted(text@) == Err::<(), LoadFault>(error@),
            },
    {
        match check_text(text) {
            Ok(()) => Ok(StoredText { text: String::from_str(text) }),
            Err(error) => Err(error),
        }
    }

    /// The text as it was given.
    pub fn as_str(&self) -> (text: &str)
        ensures
            text@ == self@,
            well_formed(text@),
    {
        proof {
            use_type_invariant(self);
        }
        self.text.as_str()
    }
}

/// What a place for a stored text holds, in contracts.
pub open spec fn stored_view(slot: Option<StoredText>) -> Option<Seq<char>> {
    match slot {
        Some(stored) => Some(stored@),
        None => None,
    }
}

/// What a borrowed text, or none, stands for in contracts.
pub open spec fn borrowed_view(slot: Option<&str>) -> Option<Seq<char>> {
    match slot {
        Some(text) => Some(text@),
        None => None,
    }
}

/// What an owned text, or none, stands for in contracts.
pub open spec fn text_of(slot: Option<String>) -> Option<Seq<char>> {
    match slot {
        Some(text) => Some(text@),
        None => None,
    }
}

/// A text, where there is one, is well formed.
pub open spec fn well_formed_if_any(slot: Option<Seq<char>>) -> bool {
    slot matches Some(text) ==> well_formed(text)
}

/// Brings into the open what the type of `slot` keeps to itself: a text
/// that is stored is well formed. Nothing is done when this runs.
pub(crate) fn recall_well_formed(slot: &Option<StoredText>)
    ensures
        well_formed_if_any(stored_view(*slot)),
{
    proof {
        match slot {
            Some(stored) => {
                use_type_invariant(stored);
            },
            None => {},
        }
    }
}

/// What is stored in `slot`, borrowed.
pub fn borrow_text(slot: &Option<StoredText>) -> (text: Option<&str>)
    ensures
        borrowed_view(text) == stored_view(*slot),
        well_formed_if_any(stored_view(*slot)),
{
    match slot {
        Some(stored) => Some(stored.as_str()),
        None => None,
    }
}

/// A copy of what is stored in `slot`.
pub fn copy_text(slot: &Option<StoredText>) -> (copy: Option<String>)
    ensures
        text_of(copy) == stored_view(*slot),
        well_formed_if_any(stored_view(*slot)),
{
    match slot {
        Some(stored) => Some(String::from_str(stored.as_str())),
        None => None,
    }
}

} // verus!
