//! The JSON codec's place in the transport: envelopes serialized as JSON
//! travel as self-describing UTF-8 text, one text frame per envelope.
//!
//! The structural serialization of application values is the embedding's
//! concern; what is checked here is the representation contract that the
//! pumps rely on — JSON payloads are text, and a binary payload where
//! text was declared is rejected before any parse is attempted.

use vstd::prelude::*;
use vstd::string::StringExecFns;

use crate::envelope::{DataKind, SerializedData};

verus! {

/// Marks the JSON codec: values serialized as JSON text documents.
#[derive(Default, Debug, Clone, Copy, PartialEq, Eq, Structural)]
pub struct JsonSerializer;

impl JsonSerializer {
    /// JSON envelopes are declared as text on the wire.
    pub fn data_kind() -> (k: DataKind)
        ensures
            k == DataKind::Text,
    {
        DataKind::Text
    }

    /// Admits only the representation this codec declares: the text
    /// payload is handed on to the parser, and a binary payload is
    /// refused with the codec's own complaint.
    pub fn take_text(data: SerializedData) -> (r: Result<String, String>)
        ensures
            data matches SerializedData::Text(s) ==> r == Ok::<_, String>(s),
            data is Binary ==> (r matches Err(m) && m@
                == "Expected String data found Binary data"@),
    {
        match data {
            SerializedData::Text(s) => Ok(s),
            SerializedData::Binary(_) => Err(
                String::from_str("Expected String data found Binary data"),
            ),
        }
    }
}

} // verus!
