use vstd::prelude::*;

use crate::value::ValueKind;

verus! {

/// The position in a `cmdline_show` occurrence that a fault is about.
#[derive(Clone, Copy, Debug, PartialEq, Eq, Structural)]
pub enum Field {
    /// The occurrence as a whole.
    Occurrence,
    Content,
    /// One chunk of the content.
    Chunk,
    /// The attribute id of a chunk.
    ChunkAttr,
    /// The text of a chunk.
    ChunkText,
    Pos,
    Firstc,
    Prompt,
    Indent,
    Level,
}

/// What stood where a field was expected.
#[derive(Clone, Copy, Debug, PartialEq, Eq, Structural)]
pub enum Found {
    /// Nothing: the sequence ends before this position.
    Missing,
    /// A value of a kind that the field does not take.
    Kind(ValueKind),
    /// An integer that the field cannot hold.
    OutOfRange,
    /// An array with more or fewer items than the field takes.
    WrongLength,
}

/// Which field of an occurrence is at fault, and what was found there.
#[derive(Clone, Copy, Debug, PartialEq, Eq, Structural)]
pub struct FaultDetail {
    pub field: Field,
    pub found: Found,
}

/// A mismatch between the shape that an event kind asks for and what arrived.
#[derive(Clone, Debug, PartialEq, Eq)]
pub enum DecodeFault {
    /// The batch is no array that starts with a string tag.
    MalformedEnvelope,
    /// An occurrence does not have the shape of its kind.
    MalformedOccurrence { kind: String, detail: FaultDetail },
}

/// What a [`DecodeFault`] stands for.
pub enum DecodeFaultView {
    MalformedEnvelope,
    MalformedOccurrence { kind: Seq<char>, detail: FaultDetail },
}

impl View for DecodeFault {
    type V = DecodeFaultView;

    open spec fn view(&self) -> DecodeFaultView {
        match self {
            DecodeFault::MalformedEnvelope => DecodeFaultView::MalformedEnvelope,
            DecodeFault::MalformedOccurrence { kind, detail } => DecodeFaultView::MalformedOccurrence {
                kind: kind@,
                detail: *detail,
            },
        }
    }
}

} // verus!
