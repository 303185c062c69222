//! The boundary to the JSON decoder.
//!
//! The stream parser never interprets a JSON value itself. It asks the
//! decoder how far one value reaches from a given position, and only that
//! answer enters the verified state machine.

use vstd::prelude::*;

verus! {

/// What the decoder makes of the bytes at the start of an input.
pub ghost enum Scan {
    /// One complete value was read; it takes up this many leading bytes.
    Value { consumed: nat },
    /// The input stops inside a value that is well formed so far.
    Eof,
    /// The input cannot start any value; the text describes the fault.
    Invalid { detail: Seq<char> },
    /// The input holds no value at all.
    Empty,
}

/// Executable counterpart of [`Scan`].
#[derive(Debug)]
pub enum Decoded {
    Value { consumed: usize },
    Eof,
    Invalid { detail: String },
    Empty,
}

impl View for Decoded {
    type V = Scan;

    open spec fn view(&self) -> Scan {
        match self {
            Decoded::Value { consumed } => Scan::Value { consumed: *consumed as nat },
            Decoded::Eof => Scan::Eof,
            Decoded::Invalid { detail } => Scan::Invalid { detail: detail@ },
            Decoded::Empty => Scan::Empty,
        }
    }
}

/// The decoder's verdict on `input`: the result of reading a single JSON
/// value from its first byte on. It stands for the decoder itself, so nothing
/// is known of it but what [`decode_prefix`] reports.
pub uninterp spec fn json_scan(input: Seq<u8>) -> Scan;

/// Reads one JSON value from the front of `input` with
/// `serde_json::StreamDeserializer<_, serde_json::Value>::next`.
///
/// Trusted: the answer is the decoder's own, a function of the bytes alone,
/// and a value that was read never reaches past the end of the input, since
/// the decoder's byte offset is an index into the slice it was given. A
/// failure that the decoder classifies as premature end of input becomes
/// `Eof`, every other failure `Invalid` with the decoder's message.
#[verifier::external_body]
pub(crate) fn decode_prefix(input: &[u8]) -> (r: Decoded)
    ensures
        r@ == json_scan(input@),
        r matches Decoded::Value { consumed } ==> consumed <= input@.len(),
{
    let mut values = serde_json::Deserializer::from_slice(input).into_iter::<serde_json::Value>();
    match values.next() {
        Some(Ok(_)) => Decoded::Value { consumed: values.byte_offset() },
        Some(Err(e)) if e.is_eof() => Decoded::Eof,
        Some(Err(e)) => Decoded::Invalid { detail: e.to_string() },
        None => Decoded::Empty,
    }
}

} // verus!
