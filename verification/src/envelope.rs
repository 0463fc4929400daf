//! The unit exchanged with the application: a message-type name plus its
//! encoded payload, independent of how the wire demarcates it.

use vstd::prelude::*;

verus! {

/// The wire representation declared for a message type at registration
/// time: each type travels as text or as binary, fixed once, never
/// inferred per instance.
#[derive(Clone, Copy, Debug, PartialEq, Eq, Structural)]
pub enum DataKind {
    /// The payload is a complete, self-describing UTF-8 document.
    Text,
    /// The payload is an opaque binary blob.
    Binary,
}

/// One encoded payload, in whichever representation its type declared.
#[derive(Clone, Debug, PartialEq, Eq)]
pub enum SerializedData {
    /// A UTF-8 text payload.
    Text(String),
    /// A binary payload.
    Binary(Vec<u8>),
}

/// The representation a payload actually arrived or was produced in.
pub open spec fn kind_of(d: SerializedData) -> DataKind {
    match d {
        SerializedData::Text(_) => DataKind::Text,
        SerializedData::Binary(_) => DataKind::Binary,
    }
}

impl SerializedData {
    /// The representation this payload is in.
    pub fn data_kind(&self) -> (k: DataKind)
        ensures
            k == kind_of(*self),
    {
        match self {
            SerializedData::Text(_) => DataKind::Text,
            SerializedData::Binary(_) => DataKind::Binary,
        }
    }
}

/// The unit exchanged with the application: the message-type name that
/// picks the registered codec, and the encoded payload.
#[derive(Clone, Debug, PartialEq, Eq)]
pub struct Envelope {
    /// The registered message-type identifier.
    pub kind: String,
    /// The encoded payload.
    pub data: SerializedData,
}

impl Envelope {
    /// Builds an envelope from its parts.
    pub fn new(kind: String, data: SerializedData) -> (e: Self)
        ensures
            e.kind == kind,
            e.data == data,
    {
        Envelope { kind, data }
    }
}

} // verus!
