//! The failures of the engine: one type per boundary, each with a
//! mathematical view and a readable message.
//!
//! A failure is made where it arises and is carried outwards unchanged inside
//! the failure of the next layer; nothing is dropped on the way.

use vstd::prelude::*;

verus! {

/// Why a resolver could not hand out the source of a scenario.
#[derive(Debug, Clone, PartialEq, Eq)]
pub enum ResolverError {
    /// No scenario of this name is known; the name is carried along.
    NotFound(String),
    /// The logic behind the resolver failed; its own description is carried along.
    ExternalFailure(String),
    /// The logic behind the resolver did not answer in time.
    Timeout,
}

/// What a `ResolverError` stands for in contracts.
pub enum ResolverFault {
    NotFound(Seq<char>),
    ExternalFailure(Seq<char>),
    Timeout,
}

impl View for ResolverError {
    type V = ResolverFault;

    open spec fn view(&self) -> ResolverFault {
        match self {
            ResolverError::NotFound(name) => ResolverFault::NotFound(name@),
            ResolverError::ExternalFailure(detail) => ResolverFault::ExternalFailure(detail@),
            ResolverError::Timeout => ResolverFault::Timeout,
        }
    }
}

impl ResolverFault {
    /// The text that describes this fault to a person.
    pub open spec fn message(self) -> Seq<char> {
        match self {
            ResolverFault::NotFound(name) => "scenario not found: "@ + name,
            ResolverFault::ExternalFailure(detail) => "resolver failed: "@ + detail,
            ResolverFault::Timeout => "resolver timed out"@,
        }
    }
}

impl ResolverError {
    /// Describes the failure to a person.
    pub fn message(&self) -> (text: String)
        ensures
            text@ == self@.message(),
    {
        match self {
            ResolverError::NotFound(name) => {
                let mut text = String::from_str("scenario not found: ");
                text.append(name.as_str());
                text
            },
            ResolverError::ExternalFailure(detail) => {
                let mut text = String::from_str("resolver failed: ");
                text.append(detail.as_str());
                text
            },
            ResolverError::Timeout => String::from_str("resolver timed out"),
        }
    }
}

/// What was wrong with a text that was offered for loading.
#[derive(Debug, Clone, PartialEq, Eq)]
pub struct FormatDetail {
    /// What rule the text breaks.
    pub reason: String,
    /// The part of the text that leads up to the offending place.
    pub excerpt: String,
}

/// What a `FormatDetail` stands for in contracts.
pub struct FormatFault {
    pub reason: Seq<char>,
    pub excerpt: Seq<char>,
}

impl View for FormatDetail {
    type V = FormatFault;

    open spec fn view(&self) -> FormatFault {
        FormatFault { reason: self.reason@, excerpt: self.excerpt@ }
    }
}

/// Why a text was not stored.
#[derive(Debug, Clone, PartialEq, Eq)]
pub enum LoadError {
    /// The text is not well formed.
    InvalidFormat(FormatDetail),
}

/// What a `LoadError` stands for in contracts.
pub enum LoadFault {
    InvalidFormat(FormatFault),
}

impl View for LoadError {
    type V = LoadFault;

    open spec fn view(&self) -> LoadFault {
        match self {
            LoadError::InvalidFormat(detail) => LoadFault::InvalidFormat(detail@),
        }
    }
}

impl LoadFault {
    /// The text that describes this fault to a person.
    pub open spec fn message(self) -> Seq<char> {
        match self {
            LoadFault::InvalidFormat(detail) => "invalid format: "@ + detail.reason + " after \""@
                + detail.excerpt + "\""@,
        }
    }
}

impl LoadError {
    /// Describes the failure to a person.
    pub fn message(&self) -> (text: String)
        ensures
            text@ == self@.message(),
    {
        match self {
            LoadError::InvalidFormat(detail) => {
                let mut text = String::from_str("invalid format: ");
                text.append(detail.reason.as_str());
                text.append(" after \"");
                text.append(detail.excerpt.as_str());
                text.append("\"");
                text
            },
        }
    }
}

/// The kind of an evaluation failure, for callers that branch on it.
#[derive(Debug, Clone, Copy, PartialEq, Eq, Structural)]
pub enum ErrorKind {
    NoScript,
    ScenarioResolutionFailed,
    ExecutionFailed,
}

/// Why an evaluation gave no result.
#[derive(Debug, Clone, PartialEq, Eq)]
pub enum EvalError {
    /// No script has been loaded.
    NoScript,
    /// The resolver failed on the named scenario, for the reason carried along.
    ScenarioResolutionFailed(String, ResolverError),
    /// The composed program ran and failed; the detail is the engine's own.
    ExecutionFailed(String),
}

/// What an `EvalError` stands for in contracts.
pub enum EvalFault {
    NoScript,
    ScenarioResolutionFailed(Seq<char>, ResolverFault),
    ExecutionFailed(Seq<char>),
}

impl View for EvalError {
    type V = EvalFault;

    open spec fn view(&self) -> EvalFault {
        match self {
            EvalError::NoScript => EvalFault::NoScript,
            EvalError::ScenarioResolutionFailed(name, cause) => EvalFault::ScenarioResolutionFailed(
                name@,
                cause@,
            ),
            EvalError::ExecutionFailed(detail) => EvalFault::ExecutionFailed(detail@),
        }
    }
}

impl EvalFault {
    /// The kind of this fault.
    pub open spec fn kind(self) -> ErrorKind {
        match self {
            EvalFault::NoScript => ErrorKind::NoScript,
            EvalFault::ScenarioResolutionFailed(_, _) => ErrorKind::ScenarioResolutionFailed,
            EvalFault::ExecutionFailed(_) => ErrorKind::ExecutionFailed,
        }
    }

    /// The text that describes this fault to a person.
    pub open spec fn message(self) -> Seq<char> {
        match self {
            EvalFault::NoScript => "no script loaded"@,
            EvalFault::ScenarioResolutionFailed(name, cause) => "cannot resolve scenario '"@ + name
                + "': "@ + cause.message(),
            EvalFault::ExecutionFailed(detail) => "execution failed: "@ + detail,
        }
    }
}

impl EvalError {
    /// The kind of the failure.
    pub fn kind(&self) -> (kind: ErrorKind)
        ensures
            kind == self@.kind(),
    {
        match self {
            EvalError::NoScript => ErrorKind::NoScript,
            EvalError::ScenarioResolutionFailed(_, _) => ErrorKind::ScenarioResolutionFailed,
            EvalError::ExecutionFailed(_) => ErrorKind::ExecutionFailed,
        }
    }

    /// Describes the failure to a person.
    pub fn message(&self) -> (text: String)
        ensures
            text@ == self@.message(),
    {
        match self {
            EvalError::NoScript => String::from_str("no script loaded"),
            EvalError::ScenarioResolutionFailed(name, cause) => {
                let mut text = String::from_str("cannot resolve scenario '");
                text.append(name.as_str());
                text.append("': ");
                let reason = cause.message();
                text.append(reason.as_str());
                text
            },
            EvalError::ExecutionFailed(detail) => {
                let mut text = String::from_str("execution failed: ");
                text.append(detail.as_str());
                text
            },
        }
    }
}

} // verus!
