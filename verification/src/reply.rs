//! What the engine answers, and which answer belongs to which request.

use vstd::prelude::*;
use vstd::string::StringExecFns;
use crate::bridge::Request;
use crate::error::EngineError;
use crate::vectors::VectorData;

verus! {

/// What the engine answers to a request that it has run without failure.
#[derive(Debug, Clone, PartialEq)]
pub enum Reply<T> {
    /// The circuit is loaded, or the command has run.
    Done,
    /// The name of the current plot.
    Name(String),
    /// The names of all plots, or of all vectors of a plot.
    Names(Vec<String>),
    /// The samples of a vector.
    Vector(VectorData<T>),
}

/// The reason given when an answer is not of the kind that was asked for.
pub open spec fn unexpected_answer() -> Seq<char> {
    "Unexpected answer from the engine"@
}

/// Whether `reply` is of the kind that answers `request`.
pub open spec fn answers<T>(request: Request, reply: Reply<T>) -> bool {
    match request {
        Request::Circuit(_) | Request::Command(_) => reply is Done,
        Request::CurrentPlotName => reply is Name,
        Request::AllPlotNames | Request::AllVectorNames(_) => reply is Names,
        Request::VectorInfo(_) => reply is Vector,
    }
}

/// Whether `outcome` is the failure to get the kind of answer asked for.
pub open spec fn is_unexpected<V>(outcome: Result<V, EngineError>) -> bool {
    match outcome {
        Err(EngineError::EngineCallFailed(reason)) => reason@ == unexpected_answer(),
        _ => false,
    }
}

fn unexpected<V>() -> (outcome: Result<V, EngineError>)
    ensures
        is_unexpected(outcome),
{
    Err(EngineError::EngineCallFailed(String::from_str("Unexpected answer from the engine")))
}

impl<T> Reply<T> {
    /// Whether this reply is of the kind that answers `request`.
    pub fn fits(&self, request: &Request) -> (fits: bool)
        ensures
            fits == answers(*request, *self),
    {
        match request {
            Request::Circuit(_) => matches!(self, Reply::Done),
            Request::Command(_) => matches!(self, Reply::Done),
            Request::CurrentPlotName => matches!(self, Reply::Name(_)),
            Request::AllPlotNames => matches!(self, Reply::Names(_)),
            Request::AllVectorNames(_) => matches!(self, Reply::Names(_)),
            Request::VectorInfo(_) => matches!(self, Reply::Vector(_)),
        }
    }

    /// The answer to a circuit or a command: nothing but that it is done.
    pub fn into_done(self) -> (done: Result<(), EngineError>)
        ensures
            match self {
                Reply::Done => done == Ok::<(), EngineError>(()),
                _ => is_unexpected(done),
            },
    {
        match self {
            Reply::Done => Ok(()),
            _ => unexpected(),
        }
    }

    /// The answer to a query for the current plot: its name.
    pub fn into_name(self) -> (name: Result<String, EngineError>)
        ensures
            match self {
                Reply::Name(text) => name == Ok::<String, EngineError>(text),
                _ => is_unexpected(name),
            },
    {
        match self {
            Reply::Name(text) => Ok(text),
            _ => unexpected(),
        }
    }

    /// The answer to a query for all plots or all vectors: their names.
    pub fn into_names(self) -> (names: Result<Vec<String>, EngineError>)
        ensures
            match self {
                Reply::Names(list) => names == Ok::<Vec<String>, EngineError>(list),
                _ => is_unexpected(names),
            },
    {
        match self {
            Reply::Names(list) => Ok(list),
            _ => unexpected(),
        }
    }

    /// The answer to a query for a vector: its samples, real or complex.
    pub fn into_vector(self) -> (vector: Result<VectorData<T>, EngineError>)
        ensures
            match self {
                Reply::Vector(data) => vector == Ok::<VectorData<T>, EngineError>(data),
                _ => is_unexpected(vector),
            },
    {
        match self {
            Reply::Vector(data) => Ok(data),
            _ => unexpected(),
        }
    }
}

} // verus!
