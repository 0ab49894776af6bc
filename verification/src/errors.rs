//! The error taxonomy of the transport: wire decoding, event binding and
//! response assembly each fail in their own, fully enumerated ways.

use vstd::prelude::*;

verus! {

/// A CloudEvent attribute, as named by the reserved request headers.
#[derive(Clone, Copy, PartialEq, Eq, Structural, Debug)]
pub enum AttrName {
    Id,
    SpecVersion,
    Source,
    Type,
    Subject,
    Time,
}

/// Why a request could not be decoded: the body was not a well-formed
/// structured document, or a required binary-mode attribute header was
/// absent.
#[derive(Clone, Copy, PartialEq, Eq, Structural, Debug)]
pub enum DecodeError {
    Malformed,
    MissingAttribute(AttrName),
}

/// Why a response could not be assembled: this transport defines no
/// encoding for two or more outbound events, and refuses them loudly.
#[derive(Clone, Copy, PartialEq, Eq, Structural, Debug)]
pub enum EncodeError {
    UnsupportedMultiEventResponse,
}

/// Why a decoded batch could not be bound to the function's parameters: a
/// required parameter, named by its 1-based position, had no event left.
#[derive(Clone, Copy, PartialEq, Eq, Structural, Debug)]
pub enum BindError {
    MissingRequiredEvent(usize),
}

/// A failure on the request side of the pipeline, before the function runs.
#[derive(Clone, Copy, PartialEq, Eq, Structural, Debug)]
pub enum PipelineError {
    Decode(DecodeError),
    Bind(BindError),
}

} // verus!
