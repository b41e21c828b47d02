//! The parser of header blocks.
//!
//! A block is read field by field. Each field is measured first; a field
//! that names nothing but the static table and literal strings is then
//! handed to the resolver, every other field is stepped over. The first
//! error ends the block, and nothing of the block is returned.
use super::field::{
    block_spans, field_span, indexed_layout, indexed_span, lemma_field_span_bounds,
    lemma_field_span_local, literal_layout, literal_span, size_update_layout, size_update_span,
    total_octets, FieldLayout, FieldRepresentation, FieldSpan,
};
use super::laws::{lemma_block_is_covered, lemma_decoded_block_is_measured};
use super::resolver::{decode_field, fields_model, new_decoder, resolved, HeaderField};
use hpack::decoder::{Decoder, DecoderError};
use vstd::prelude::*;

pub use super::error::ParseError;
pub use super::integer::parse_int;

verus! {

/// What one field yields: its header fields, where it was resolved, and the
/// octets it occupies.
pub type FieldOutcome = Result<(Option<Seq<HeaderField>>, nat), ParseError>;

/// The outcome of a field that was measured as `span`: a field that can be
/// resolved yields what the resolver makes of its octets, any other field
/// yields no header fields.
pub open spec fn span_outcome(buf: Seq<u8>, span: Result<FieldSpan, ParseError>) -> FieldOutcome {
    match span {
        Ok(span) => if span.resolvable {
            match resolved(buf.take(span.octets as int)) {
                Some(fields) => Ok((Some(fields), span.octets)),
                None => Err(ParseError::InvalidHuffmanCode),
            }
        } else {
            Ok((None, span.octets))
        },
        Err(e) => Err(e),
    }
}

/// The outcome of the field that starts at `buf[0]`.
pub open spec fn field_outcome(buf: Seq<u8>) -> FieldOutcome
    recommends
        buf.len() > 0,
{
    span_outcome(buf, field_span(buf))
}

/// The header fields that a field adds to the output.
pub open spec fn found_fields(found: Option<Seq<HeaderField>>) -> Seq<HeaderField> {
    match found {
        Some(fields) => fields,
        None => Seq::empty(),
    }
}

/// `fields` followed by what the rest of a block yields.
pub open spec fn followed_by(fields: Seq<HeaderField>, rest: Result<Seq<HeaderField>, ParseError>)
    -> Result<Seq<HeaderField>, ParseError> {
    match rest {
        Ok(rest) => Ok(fields + rest),
        Err(e) => Err(e),
    }
}

/// The header fields of a block: those of its fields, in the order of the
/// block, or the first error met on the way.
pub open spec fn header_block(buf: Seq<u8>) -> Result<Seq<HeaderField>, ParseError>
    decreases buf.len(),
    via header_block_decreases
{
    if buf.len() == 0 {
        Ok(Seq::empty())
    } else {
        match field_outcome(buf) {
            Ok((found, octets)) => followed_by(
                found_fields(found),
                header_block(buf.skip(octets as int)),
            ),
            Err(e) => Err(e),
        }
    }
}

#[via_fn]
proof fn header_block_decreases(buf: Seq<u8>) {
    if buf.len() > 0 {
        lemma_field_span_bounds(buf);
    }
}

/// The result of a field as a value of the model.
pub open spec fn outcome_model(
    outcome: Result<(Option<Vec<(Vec<u8>, Vec<u8>)>>, usize), ParseError>,
) -> FieldOutcome {
    match outcome {
        Ok((Some(fields), consumed)) => Ok((Some(fields_model(fields@)), consumed as nat)),
        Ok((None, consumed)) => Ok((None, consumed as nat)),
        Err(e) => Err(e),
    }
}

/// The result of a block as a value of the model.
pub open spec fn block_model(block: Result<Vec<(Vec<u8>, Vec<u8>)>, ParseError>) -> Result<
    Seq<HeaderField>,
    ParseError,
> {
    match block {
        Ok(fields) => Ok(fields_model(fields@)),
        Err(e) => Err(e),
    }
}

/// Turns the answer of the resolver into the result of a field of
/// `consumed` octets: the header fields, or `InvalidHuffmanCode` where the
/// resolver failed.
pub fn resolved_field(
    decoded: Result<Vec<(Vec<u8>, Vec<u8>)>, DecoderError>,
    consumed: usize,
) -> (outcome: Result<(Option<Vec<(Vec<u8>, Vec<u8>)>>, usize), ParseError>)
    ensures
        match decoded {
            Ok(fields) => outcome == Ok::<_, ParseError>((Some(fields), consumed)),
            Err(_) => outcome == Err::<(Option<Vec<(Vec<u8>, Vec<u8>)>>, usize), _>(
                ParseError::InvalidHuffmanCode,
            ),
        },
{
    match decoded {
        Ok(rst) => Ok((Some(rst), consumed)),
        Err(_) => Err(ParseError::InvalidHuffmanCode),
    }
}

/// Moves the header fields of a field, if it has any, to the end of
/// `output`.
pub fn collect(found: Option<Vec<(Vec<u8>, Vec<u8>)>>, output: &mut Vec<(Vec<u8>, Vec<u8>)>)
    ensures
        final(output)@ == old(output)@ + (match found {
            Some(fields) => fields@,
            None => Seq::empty(),
        }),
{
    if let Some(mut value) = found {
        output.append(&mut value);
    }
}

/// The model of a list is the models of its parts, one after the other.
proof fn lemma_fields_model_split(fields: Seq<(Vec<u8>, Vec<u8>)>, at: int)
    requires
        0 <= at <= fields.len(),
    ensures
        fields_model(fields) == fields_model(fields.take(at)) + fields_model(fields.skip(at)),
{
    assert(fields_model(fields) =~= fields_model(fields.take(at)) + fields_model(fields.skip(at)));
}

/// Reading one field takes a block from one state of the cursor to the
/// next: what was collected before the field, then the field, then the rest
/// of the block.
proof fn lemma_field_read(
    buf: Seq<u8>,
    offset: int,
    collected: Seq<HeaderField>,
    found: Option<Seq<HeaderField>>,
    octets: nat,
)
    requires
        0 <= offset < buf.len(),
        field_outcome(buf.skip(offset)) == Ok::<_, ParseError>((found, octets)),
    ensures
        1 <= octets,
        offset + octets <= buf.len(),
        followed_by(collected, header_block(buf.skip(offset))) == followed_by(
            collected + found_fields(found),
            header_block(buf.skip(offset + octets)),
        ),
{
    let rest = buf.skip(offset);
    lemma_field_span_bounds(rest);
    assert(rest.skip(octets as int) == buf.skip(offset + octets));
    match header_block(buf.skip(offset + octets)) {
        Ok(tail) => {
            assert(collected + (found_fields(found) + tail) == (collected + found_fields(found))
                + tail);
        },
        Err(_) => {},
    }
}

/// Before the first field nothing is collected, and behind the last field
/// nothing is left.
proof fn lemma_block_ends(buf: Seq<u8>, collected: Seq<HeaderField>)
    ensures
        header_block(buf) == followed_by(Seq::empty(), header_block(buf.skip(0))),
        followed_by(collected, header_block(buf.skip(buf.len() as int))) == Ok::<_, ParseError>(
            collected,
        ),
{
    assert(buf.skip(0) == buf);
    match header_block(buf) {
        Ok(fields) => {
            assert(Seq::<HeaderField>::empty() + fields == fields);
        },
        Err(_) => {},
    }
    assert(collected + Seq::<HeaderField>::empty() == collected);
}

/// A parser of header blocks. It owns the resolver and keeps nothing of the
/// blocks it has read.
pub struct Parser<'a> {
    decoder: Decoder<'a>,
}

impl Parser<'_> {
    /// A parser with a resolver of its own. Nothing is promised of it:
    /// what a block decodes to is the same for every parser, new or used.
    pub fn new() -> Parser<'static> {
        Parser { decoder: new_decoder() }
    }

    /// Resolves a measured field, or steps over it.
    fn resolve(&mut self, buf: &[u8], layout: FieldLayout) -> (outcome: Result<
        (Option<Vec<(Vec<u8>, Vec<u8>)>>, usize),
        ParseError,
    >)
        requires
            buf.len() > 0,
            field_span(buf@) == Ok::<_, ParseError>(layout@),
        ensures
            outcome_model(outcome) == field_outcome(buf@),
    {
        proof {
            lemma_field_span_bounds(buf@);
        }
        if layout.resolvable {
            let span = &buf[0..layout.consumed];
            proof {
                assert(span@ == buf@.take(layout.consumed as int));
                lemma_field_span_local(buf@, span@);
            }
            resolved_field(decode_field(&mut self.decoder, span), layout.consumed)
        } else {
            Ok((None, layout.consumed))
        }
    }

    /// A literal field whose first integer has a prefix of `prefix` bits.
    fn parse_kv_pair(&mut self, buf: &[u8], prefix: u8) -> (outcome: Result<
        (Option<Vec<(Vec<u8>, Vec<u8>)>>, usize),
        ParseError,
    >)
        requires
            buf.len() > 0 ==> field_span(buf@) == literal_span(buf@, prefix),
        ensures
            outcome_model(outcome) == span_outcome(buf@, literal_span(buf@, prefix)),
    {
        let layout = literal_layout(buf, prefix)?;
        self.resolve(buf, layout)
    }

    /// An indexed field.
    fn parse_indexed(&mut self, buf: &[u8]) -> (outcome: Result<
        (Option<Vec<(Vec<u8>, Vec<u8>)>>, usize),
        ParseError,
    >)
        requires
            buf.len() > 0 ==> field_span(buf@) == indexed_span(buf@),
        ensures
            outcome_model(outcome) == span_outcome(buf@, indexed_span(buf@)),
    {
        let layout = indexed_layout(buf)?;
        self.resolve(buf, layout)
    }

    /// A literal field that the sender adds to its table.
    fn parse_indexing(&mut self, buf: &[u8]) -> (outcome: Result<
        (Option<Vec<(Vec<u8>, Vec<u8>)>>, usize),
        ParseError,
    >)
        requires
            buf.len() > 0 ==> field_span(buf@) == literal_span(buf@, 6),
        ensures
            outcome_model(outcome) == span_outcome(buf@, literal_span(buf@, 6)),
    {
        self.parse_kv_pair(buf, 6)
    }

    /// A change of the table's size: it is measured, and that is all.
    fn parse_sizeup(&mut self, buf: &[u8]) -> (consumed: Result<usize, ParseError>)
        ensures
            match consumed {
                Ok(consumed) => size_update_span(buf@) == Ok::<_, ParseError>(
                    FieldSpan { octets: consumed as nat, resolvable: false },
                ),
                Err(e) => size_update_span(buf@) == Err::<FieldSpan, _>(e),
            },
    {
        let layout = size_update_layout(buf)?;
        Ok(layout.consumed)
    }

    /// A literal field that must never be indexed.
    fn parse_never_indexed(&mut self, buf: &[u8]) -> (outcome: Result<
        (Option<Vec<(Vec<u8>, Vec<u8>)>>, usize),
        ParseError,
    >)
        requires
            buf.len() > 0 ==> field_span(buf@) == literal_span(buf@, 4),
        ensures
            outcome_model(outcome) == span_outcome(buf@, literal_span(buf@, 4)),
    {
        self.parse_kv_pair(buf, 4)
    }

    /// A literal field that is not indexed.
    fn parse_without_indexing(&mut self, buf: &[u8]) -> (outcome: Result<
        (Option<Vec<(Vec<u8>, Vec<u8>)>>, usize),
        ParseError,
    >)
        requires
            buf.len() > 0 ==> field_span(buf@) == literal_span(buf@, 4),
        ensures
            outcome_model(outcome) == span_outcome(buf@, literal_span(buf@, 4)),
    {
        self.parse_kv_pair(buf, 4)
    }

    /// Reads the field that starts at `input[offset]`, adds its header
    /// fields to `output` and returns the octets that the field occupies.
    /// On an error `output` is left as it was.
    pub fn parse_one_field(
        &mut self,
        input: &[u8],
        offset: usize,
        output: &mut Vec<(Vec<u8>, Vec<u8>)>,
    ) -> (consumed: Result<usize, ParseError>)
        requires
            offset < input.len(),
        ensures
            match consumed {
                Ok(consumed) => {
                    &&& field_outcome(input@.skip(offset as int)) matches Ok((found, octets))
                    &&& consumed == octets
                    &&& 1 <= consumed
                    &&& offset + consumed <= input.len()
                    &&& final(output)@.len() >= old(output)@.len()
                    &&& final(output)@.take(old(output)@.len() as int) == old(output)@
                    &&& fields_model(final(output)@.skip(old(output)@.len() as int))
                        == found_fields(found)
                },
                Err(e) => {
                    &&& field_outcome(input@.skip(offset as int)) == Err::<
                        (Option<Seq<HeaderField>>, nat),
                        _,
                    >(e)
                    &&& final(output)@ == old(output)@
                },
            },
    {
        let buf = &input[offset..input.len()];
        assert(buf@ == input@.skip(offset as int));
        proof {
            lemma_field_span_bounds(buf@);
        }
        let (found, consumed) = match FieldRepresentation::new(input[offset]) {
            FieldRepresentation::Indexed => self.parse_indexed(buf)?,
            FieldRepresentation::LiteralWithIncrementalIndexing => self.parse_indexing(buf)?,
            FieldRepresentation::SizeUpdate => (None, self.parse_sizeup(buf)?),
            FieldRepresentation::LiteralNeverIndexed => self.parse_never_indexed(buf)?,
            FieldRepresentation::LiteralWithoutIndexing => self.parse_without_indexing(buf)?,
        };
        collect(found, output);
        Ok(consumed)
    }

    /// Decodes a header block into its header fields, in the order in which
    /// they stand in the block. A block is decoded only if its fields fill
    /// it to the last octet.
    pub fn parse(&mut self, input: &[u8]) -> (block: Result<Vec<(Vec<u8>, Vec<u8>)>, ParseError>)
        ensures
            block_model(block) == header_block(input@),
            block is Ok ==> (block_spans(input@) matches Ok(spans) && total_octets(spans)
                == input.len()),
    {
        let mut header_list: Vec<(Vec<u8>, Vec<u8>)> = Vec::new();
        let mut offset: usize = 0;
        proof {
            lemma_block_ends(input@, Seq::empty());
            assert(fields_model(header_list@) == Seq::<HeaderField>::empty());
        }
        while offset < input.len()
            invariant
                offset <= input.len(),
                header_block(input@) == followed_by(
                    fields_model(header_list@),
                    header_block(input@.skip(offset as int)),
                ),
            decreases input.len() - offset,
        {
            let ghost before = header_list@;
            let consumed = self.parse_one_field(input, offset, &mut header_list)?;
            proof {
                let found = field_outcome(input@.skip(offset as int))->Ok_0.0;
                lemma_fields_model_split(header_list@, before.len() as int);
                lemma_field_read(
                    input@,
                    offset as int,
                    fields_model(before),
                    found,
                    consumed as nat,
                );
            }
            offset += consumed;
        }
        proof {
            lemma_block_ends(input@, fields_model(header_list@));
            lemma_decoded_block_is_measured(input@);
            lemma_block_is_covered(input@);
        }
        Ok(header_list)
    }
}

} // verus!
