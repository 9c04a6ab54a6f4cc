//! The typed errors the dispatch core produces, and their models.
//!
//! Every failure of a dispatch is one of these values; nothing is logged and
//! swallowed. The transport layer around the core decides how each kind is
//! shown to a caller.

use vstd::prelude::*;

use crate::value::{JsonVal, Value};

verus! {

/// The kinds of per-call resources a handler can ask for.
#[derive(Clone, Copy, PartialEq, Eq, Structural, Debug)]
pub enum ResourceKind {
    Ctx,
    ModelManager,
}

/// Why a params payload did not match the expected shape.
#[derive(Debug)]
pub enum ParseError {
    ExpectedObject,
    ExpectedText,
    ExpectedBool,
    ExpectedInt,
    MissingField(String),
    InvalidIdent(String),
}

/// Model of a [`ParseError`].
pub enum ParseErrorV {
    ExpectedObject,
    ExpectedText,
    ExpectedBool,
    ExpectedInt,
    MissingField(Seq<char>),
    InvalidIdent(Seq<char>),
}

impl View for ParseError {
    type V = ParseErrorV;

    open spec fn view(&self) -> ParseErrorV {
        match self {
            ParseError::ExpectedObject => ParseErrorV::ExpectedObject,
            ParseError::ExpectedText => ParseErrorV::ExpectedText,
            ParseError::ExpectedBool => ParseErrorV::ExpectedBool,
            ParseError::ExpectedInt => ParseErrorV::ExpectedInt,
            ParseError::MissingField(f) => ParseErrorV::MissingField(f@),
            ParseError::InvalidIdent(s) => ParseErrorV::InvalidIdent(s@),
        }
    }
}

/// A business failure of a handler itself, passed through unchanged.
#[derive(Debug)]
pub enum HandlerError {
    EntityNotFound { entity: String, id: u128 },
    ListLimitOverMax { max: i64, actual: i64 },
    Failed(String),
}

/// Model of a [`HandlerError`].
pub enum HandlerErrorV {
    EntityNotFound { entity: Seq<char>, id: u128 },
    ListLimitOverMax { max: i64, actual: i64 },
    Failed(Seq<char>),
}

impl View for HandlerError {
    type V = HandlerErrorV;

    open spec fn view(&self) -> HandlerErrorV {
        match self {
            HandlerError::EntityNotFound { entity, id } => HandlerErrorV::EntityNotFound {
                entity: entity@,
                id: *id,
            },
            HandlerError::ListLimitOverMax { max, actual } => HandlerErrorV::ListLimitOverMax {
                max: *max,
                actual: *actual,
            },
            HandlerError::Failed(m) => HandlerErrorV::Failed(m@),
        }
    }
}

/// The error kinds of the dispatch core.
#[derive(Debug)]
pub enum Error {
    /// The dispatch target is not registered; carries the requested name.
    MethodUnknown(String),
    /// The method's parameter type requires a payload, and none was given.
    MissingParams { method: String },
    /// A payload was given and does not deserialize into the expected shape.
    ParamsShapeMismatch { method: String, cause: ParseError },
    /// A resource the handler declares could not be taken from the bag.
    ResourceMissing(ResourceKind),
    /// The handler itself failed; its own error is passed through.
    HandlerFailed(HandlerError),
    /// The handler's success value could not be serialized.
    SerializationFailed(String),
}

/// Model of an [`Error`].
pub enum ErrorV {
    MethodUnknown(Seq<char>),
    MissingParams(Seq<char>),
    ParamsShapeMismatch(Seq<char>, ParseErrorV),
    ResourceMissing(ResourceKind),
    HandlerFailed(HandlerErrorV),
    SerializationFailed(Seq<char>),
}

impl View for Error {
    type V = ErrorV;

    open spec fn view(&self) -> ErrorV {
        match self {
            Error::MethodUnknown(m) => ErrorV::MethodUnknown(m@),
            Error::MissingParams { method } => ErrorV::MissingParams(method@),
            Error::ParamsShapeMismatch { method, cause } => ErrorV::ParamsShapeMismatch(
                method@,
                cause@,
            ),
            Error::ResourceMissing(k) => ErrorV::ResourceMissing(*k),
            Error::HandlerFailed(e) => ErrorV::HandlerFailed(e@),
            Error::SerializationFailed(m) => ErrorV::SerializationFailed(m@),
        }
    }
}

/// Model of an optional params payload.
pub open spec fn spec_opt_view(v: Option<Value>) -> Option<JsonVal> {
    match v {
        Some(x) => Some(x@),
        None => None,
    }
}

/// Model of a dispatch outcome.
pub open spec fn spec_res_view(r: Result<Value, Error>) -> Result<JsonVal, ErrorV> {
    match r {
        Ok(v) => Ok(v@),
        Err(e) => Err(e@),
    }
}

} // verus!
