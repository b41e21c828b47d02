//! What holds of every header block.
//!
//! The fields of a block are read one after the other and without a gap:
//! a block made of whole fields yields the header fields of each of them in
//! order, and the octets of its fields add up to the length of the block.
use super::error::ParseError;
use super::field::{
    block_spans, field_span, lemma_field_span_bounds, lemma_field_span_local, total_octets,
    FieldSpan,
};
use super::parser::{field_outcome, followed_by, found_fields, header_block};
use super::resolver::HeaderField;
use vstd::prelude::*;

verus! {

/// Octets that are one field and nothing more.
pub open spec fn is_whole_field(field: Seq<u8>) -> bool {
    &&& field.len() > 0
    &&& field_span(field) matches Ok(span)
    &&& span.octets == field.len()
}

/// The header fields of fields that are read one by one, in their order,
/// or the first error among them.
pub open spec fn fields_in_order(fields: Seq<Seq<u8>>) -> Result<Seq<HeaderField>, ParseError>
    decreases fields.len(),
{
    if fields.len() == 0 {
        Ok(Seq::empty())
    } else {
        match field_outcome(fields.first()) {
            Ok((found, _)) => followed_by(
                found_fields(found),
                fields_in_order(fields.drop_first()),
            ),
            Err(e) => Err(e),
        }
    }
}

/// The spans of whole fields, each measured by itself.
pub open spec fn spans_in_order(fields: Seq<Seq<u8>>) -> Seq<FieldSpan> {
    Seq::new(fields.len(), |i: int| field_span(fields[i])->Ok_0)
}

/// A whole field followed by more octets is read as that field, and what
/// is left for the next field is what follows it.
pub proof fn lemma_field_then_rest(field: Seq<u8>, rest: Seq<u8>)
    requires
        is_whole_field(field),
    ensures
        field_span(field + rest) == field_span(field),
        field_outcome(field + rest) == field_outcome(field),
        (field + rest).skip(field.len() as int) == rest,
{
    let buf = field + rest;
    lemma_field_span_local(field, buf);
    assert(buf.take(field.len() as int) == field);
    assert(field.take(field.len() as int) == field);
    assert(buf.skip(field.len() as int) == rest);
}

/// A block made of whole fields yields the header fields of each field, in
/// the order of the fields; a field that cannot be resolved is passed over
/// and the fields behind it are still read.
pub proof fn lemma_block_of_fields(fields: Seq<Seq<u8>>)
    requires
        forall|i: int| 0 <= i < fields.len() ==> is_whole_field(#[trigger] fields[i]),
    ensures
        header_block(fields.flatten()) == fields_in_order(fields),
    decreases fields.len(),
{
    if fields.len() > 0 {
        let first = fields.first();
        let others = fields.drop_first();
        assert(is_whole_field(first));
        assert forall|i: int| 0 <= i < others.len() implies is_whole_field(
            #[trigger] others[i],
        ) by {
            assert(others[i] == fields[i + 1]);
        }
        lemma_block_of_fields(others);
        lemma_field_then_rest(first, others.flatten());
    }
}

/// A block made of whole fields is measured as these fields, and the
/// octets of the fields add up to the length of the block.
pub proof fn lemma_spans_of_fields(fields: Seq<Seq<u8>>)
    requires
        forall|i: int| 0 <= i < fields.len() ==> is_whole_field(#[trigger] fields[i]),
    ensures
        block_spans(fields.flatten()) == Ok::<_, ParseError>(spans_in_order(fields)),
        total_octets(spans_in_order(fields)) == fields.flatten().len(),
    decreases fields.len(),
{
    if fields.len() > 0 {
        let first = fields.first();
        let others = fields.drop_first();
        assert(is_whole_field(first));
        assert forall|i: int| 0 <= i < others.len() implies is_whole_field(
            #[trigger] others[i],
        ) by {
            assert(others[i] == fields[i + 1]);
        }
        lemma_spans_of_fields(others);
        lemma_field_then_rest(first, others.flatten());
        assert(spans_in_order(fields) == seq![field_span(first)->Ok_0] + spans_in_order(others));
        assert(spans_in_order(fields).drop_first() == spans_in_order(others));
    } else {
        assert(spans_in_order(fields) == Seq::<FieldSpan>::empty());
    }
}

/// Wherever a block can be measured to its end, its fields lie one behind
/// the other and fill it: no octet is counted twice, passed over or left.
pub proof fn lemma_block_is_covered(buf: Seq<u8>)
    ensures
        block_spans(buf) matches Ok(spans) ==> total_octets(spans) == buf.len(),
    decreases buf.len(),
{
    if buf.len() > 0 {
        lemma_field_span_bounds(buf);
        if let Ok(span) = field_span(buf) {
            let rest = buf.skip(span.octets as int);
            lemma_block_is_covered(rest);
            if let Ok(others) = block_spans(rest) {
                assert((seq![span] + others).drop_first() == others);
            }
        }
    }
}

/// A block that is decoded was measured to its end.
pub proof fn lemma_decoded_block_is_measured(buf: Seq<u8>)
    ensures
        header_block(buf) is Ok ==> block_spans(buf) is Ok,
    decreases buf.len(),
{
    if buf.len() > 0 {
        lemma_field_span_bounds(buf);
        if let Ok(span) = field_span(buf) {
            lemma_decoded_block_is_measured(buf.skip(span.octets as int));
        }
    }
}

} // verus!
