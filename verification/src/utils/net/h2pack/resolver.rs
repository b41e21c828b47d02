//! The resolver of fields: the decoder of the `hpack` crate, which owns the
//! static table and the Huffman code.
//!
//! What this file says of the decoder is believed and not proved. The
//! decoder is handed one field at a time, and only fields that name no
//! entry of a dynamic table, so that what it answers depends on the octets
//! of the field alone.
use super::error::ParseError;
use super::field::{field_span, FieldSpan};
use hpack::decoder::{Decoder, DecoderError};
use vstd::prelude::*;

verus! {

/// The decoder of the `hpack` crate. Beside the static table it keeps a
/// dynamic table, which no field that this crate hands over ever reads.
#[verifier::external_type_specification]
#[verifier::external_body]
pub struct ExDecoder<'a>(Decoder<'a>);

/// The error of the `hpack` decoder.
#[verifier::external_type_specification]
#[verifier::external_body]
pub struct ExDecoderError(DecoderError);

/// A header field: a name and a value.
pub type HeaderField = (Seq<u8>, Seq<u8>);

/// The header fields that `hpack::Decoder::decode` returns for the octets of
/// one field that names no entry of a dynamic table, or `None` where it
/// returns an error.
pub uninterp spec fn resolved(span: Seq<u8>) -> Option<Seq<HeaderField>>;

/// The octets of exactly one field that names no entry of a dynamic table:
/// an indexed field of the static table, or a literal field whose name is
/// spelled out or stands in the static table.
pub open spec fn is_static_field(span: Seq<u8>) -> bool {
    span.len() > 0 && field_span(span) == Ok::<FieldSpan, ParseError>(
        FieldSpan { octets: span.len(), resolvable: true },
    )
}

/// Header fields as pairs of octet sequences.
pub open spec fn fields_model(fields: Seq<(Vec<u8>, Vec<u8>)>) -> Seq<HeaderField> {
    Seq::new(fields.len(), |i: int| (fields[i].0@, fields[i].1@))
}

/// The answer of the decoder as a value of the model.
pub open spec fn decoded_model(decoded: Result<Vec<(Vec<u8>, Vec<u8>)>, DecoderError>) -> Option<
    Seq<HeaderField>,
> {
    match decoded {
        Ok(fields) => Some(fields_model(fields@)),
        Err(_) => None,
    }
}

/// `hpack::Decoder::new`: a decoder with the static table and an empty
/// dynamic table. Nothing is claimed of it.
#[verifier::external_body]
pub(crate) fn new_decoder() -> Decoder<'static> {
    Decoder::new()
}

/// `hpack::Decoder::decode` on the octets of one field. Believed, not
/// proved: handed the octets of exactly one field that names no entry of a
/// dynamic table, the call returns, and what it returns is decided by these
/// octets alone, whatever the decoder has decoded before. The decoder reads
/// such a field as this crate measures it, looks its name up in the static
/// table or reads it as a string, and fails only on a string whose Huffman
/// code is broken.
#[verifier::external_body]
pub(crate) fn decode_field(decoder: &mut Decoder, span: &[u8]) -> (decoded: Result<
    Vec<(Vec<u8>, Vec<u8>)>,
    DecoderError,
>)
    requires
        is_static_field(span@),
    ensures
        decoded_model(decoded) == resolved(span@),
{
    decoder.decode(span)
}

} // verus!
