//! The five representations of a field and the octets that a field occupies.
//!
//! Measuring a field needs no table: the representation is read from the
//! first octet, and every length stands in the block as an integer.
use super::error::ParseError;
use super::integer::{lemma_prefix_int_bounds, lemma_prefix_int_local, parse_int, prefix_int};
use vstd::prelude::*;

verus! {

/// The first index of the static table.
pub const STATIC_INDEX_MIN: usize = 1;

/// The last index of the static table; larger indices name entries of the
/// dynamic table.
pub const STATIC_INDEX_MAX: usize = 61;

/// Bit 7 of the first octet: an indexed field.
pub const INDEXED: u8 = 128;

/// Bit 6 of the first octet: a literal field that is added to the table.
pub const LITERAL_WITH_INCREMENTAL_INDEXING: u8 = 64;

/// Bit 5 of the first octet: a change of the table's size.
pub const SIZE_UPDATE: u8 = 32;

/// Bit 4 of the first octet: a literal field that must never be indexed.
pub const LITERAL_NEVER_INDEXED: u8 = 16;

/// The bits of the first octet that decide the representation.
pub const MASK: u8 = 0b11110000;

/// The ways in which a field can stand in a header block.
#[derive(PartialEq, Eq, Structural, Copy, Clone, Debug)]
pub enum FieldRepresentation {
    Indexed,
    LiteralWithIncrementalIndexing,
    SizeUpdate,
    LiteralNeverIndexed,
    LiteralWithoutIndexing,
}

impl FieldRepresentation {
    /// The representation that a first octet announces. The highest of the
    /// bits 7, 6, 5 and 4 that is set decides; with none of them set the
    /// field is a literal without indexing.
    pub open spec fn of(octet: u8) -> FieldRepresentation {
        if octet >= INDEXED {
            FieldRepresentation::Indexed
        } else if octet >= LITERAL_WITH_INCREMENTAL_INDEXING {
            FieldRepresentation::LiteralWithIncrementalIndexing
        } else if octet >= SIZE_UPDATE {
            FieldRepresentation::SizeUpdate
        } else if octet >= LITERAL_NEVER_INDEXED {
            FieldRepresentation::LiteralNeverIndexed
        } else {
            FieldRepresentation::LiteralWithoutIndexing
        }
    }

    /// The width of the prefix of the integer that opens a field of this
    /// representation.
    pub open spec fn prefix(self) -> u8 {
        match self {
            FieldRepresentation::Indexed => 7,
            FieldRepresentation::LiteralWithIncrementalIndexing => 6,
            FieldRepresentation::SizeUpdate => 5,
            FieldRepresentation::LiteralNeverIndexed => 4,
            FieldRepresentation::LiteralWithoutIndexing => 4,
        }
    }

    /// The representation as the bits of the first octet tell it, tested
    /// from bit 7 downwards: the first bit found set decides.
    pub proof fn lemma_of_bits(octet: u8)
        ensures
            Self::of(octet) == (if octet & INDEXED == INDEXED {
                FieldRepresentation::Indexed
            } else if octet & LITERAL_WITH_INCREMENTAL_INDEXING
                == LITERAL_WITH_INCREMENTAL_INDEXING {
                FieldRepresentation::LiteralWithIncrementalIndexing
            } else if octet & SIZE_UPDATE == SIZE_UPDATE {
                FieldRepresentation::SizeUpdate
            } else if octet & LITERAL_NEVER_INDEXED == LITERAL_NEVER_INDEXED {
                FieldRepresentation::LiteralNeverIndexed
            } else {
                FieldRepresentation::LiteralWithoutIndexing
            }),
    {
        assert(octet & 128 == 128 <==> octet >= 128) by (bit_vector);
        assert(octet < 128 ==> (octet & 64 == 64 <==> octet >= 64)) by (bit_vector);
        assert(octet < 64 ==> (octet & 32 == 32 <==> octet >= 32)) by (bit_vector);
        assert(octet < 32 ==> (octet & 16 == 16 <==> octet >= 16)) by (bit_vector);
    }

    /// Reads the representation of a field off its first octet.
    pub fn new(octet: u8) -> (representation: FieldRepresentation)
        ensures
            representation == Self::of(octet),
    {
        proof {
            Self::lemma_of_bits(octet);
            assert((octet & 0b11110000) & 128 == octet & 128 && (octet & 0b11110000) & 64 == octet
                & 64 && (octet & 0b11110000) & 32 == octet & 32 && (octet & 0b11110000) & 16
                == octet & 16) by (bit_vector);
        }
        let flags = octet & MASK;
        if flags & INDEXED == INDEXED {
            FieldRepresentation::Indexed
        } else if flags & LITERAL_WITH_INCREMENTAL_INDEXING == LITERAL_WITH_INCREMENTAL_INDEXING {
            FieldRepresentation::LiteralWithIncrementalIndexing
        } else if flags & SIZE_UPDATE == SIZE_UPDATE {
            FieldRepresentation::SizeUpdate
        } else if flags & LITERAL_NEVER_INDEXED == LITERAL_NEVER_INDEXED {
            FieldRepresentation::LiteralNeverIndexed
        } else {
            FieldRepresentation::LiteralWithoutIndexing
        }
    }
}

/// How many octets a field occupies, and whether it can be resolved
/// without a dynamic table.
pub struct FieldSpan {
    pub octets: nat,
    pub resolvable: bool,
}

/// A measured field.
#[derive(PartialEq, Eq, Structural, Copy, Clone, Debug)]
pub struct FieldLayout {
    /// The octets that the field occupies.
    pub consumed: usize,
    /// Whether the field names nothing but the static table and literal
    /// strings.
    pub resolvable: bool,
}

impl View for FieldLayout {
    type V = FieldSpan;

    open spec fn view(&self) -> FieldSpan {
        FieldSpan { octets: self.consumed as nat, resolvable: self.resolvable }
    }
}

/// The outcome of measuring a field, over naturals.
pub open spec fn layout_model(layout: Result<FieldLayout, ParseError>) -> Result<
    FieldSpan,
    ParseError,
> {
    match layout {
        Ok(layout) => Ok(layout@),
        Err(e) => Err(e),
    }
}

/// Whether `index` names an entry of the static table.
pub open spec fn is_static_index(index: nat) -> bool {
    STATIC_INDEX_MIN <= index <= STATIC_INDEX_MAX
}

/// The octets that a string occupies which starts at `buf[0]`: its length,
/// an integer with a prefix of 7 bits, and as many octets as the length
/// says. Whether `buf` holds so many is not looked at.
pub open spec fn string_span(buf: Seq<u8>) -> Result<nat, ParseError> {
    match prefix_int(buf, 7) {
        Ok((length, octets)) => Ok(octets + length),
        Err(e) => Err(e),
    }
}

/// An indexed field is one integer with a prefix of 7 bits. It can be
/// resolved when the integer names an entry of the static table.
pub open spec fn indexed_span(buf: Seq<u8>) -> Result<FieldSpan, ParseError> {
    match prefix_int(buf, 7) {
        Ok((index, octets)) => Ok(FieldSpan { octets, resolvable: is_static_index(index) }),
        Err(e) => Err(e),
    }
}

/// A change of the table's size is one integer with a prefix of 5 bits, and
/// resolves to nothing.
pub open spec fn size_update_span(buf: Seq<u8>) -> Result<FieldSpan, ParseError> {
    match prefix_int(buf, 5) {
        Ok((_, octets)) => Ok(FieldSpan { octets, resolvable: false }),
        Err(e) => Err(e),
    }
}

/// A literal field whose name is the entry `index` of a table: the
/// reference to the name, then the value as a string.
pub open spec fn indexed_name_span(buf: Seq<u8>, index: nat, index_octets: nat) -> Result<
    FieldSpan,
    ParseError,
> {
    match string_span(buf.skip(index_octets as int)) {
        Ok(value) => if index_octets + value > buf.len() {
            Err(ParseError::InvalidInput)
        } else {
            Ok(
                FieldSpan {
                    octets: index_octets + value,
                    resolvable: index <= STATIC_INDEX_MAX,
                },
            )
        },
        Err(e) => Err(e),
    }
}

/// A literal field that spells its name out: one octet, then the name and
/// the value as strings. At least one octet must stand behind the name.
pub open spec fn literal_name_span(buf: Seq<u8>) -> Result<FieldSpan, ParseError> {
    match string_span(buf.skip(1)) {
        Ok(name) => if name + 1 >= buf.len() {
            Err(ParseError::InvalidInput)
        } else {
            match string_span(buf.skip(1 + name as int)) {
                Ok(value) => if 1 + name + value > buf.len() {
                    Err(ParseError::InvalidInput)
                } else {
                    Ok(FieldSpan { octets: 1 + name + value, resolvable: true })
                },
                Err(e) => Err(e),
            }
        },
        Err(e) => Err(e),
    }
}

/// A literal field: an integer with the given prefix that names the entry
/// holding the field's name, or is zero where the name is spelled out.
pub open spec fn literal_span(buf: Seq<u8>, prefix: u8) -> Result<FieldSpan, ParseError> {
    match prefix_int(buf, prefix) {
        Ok((index, index_octets)) => if index != 0 {
            indexed_name_span(buf, index, index_octets)
        } else {
            literal_name_span(buf)
        },
        Err(e) => Err(e),
    }
}

/// The field that starts at `buf[0]`.
pub open spec fn field_span(buf: Seq<u8>) -> Result<FieldSpan, ParseError>
    recommends
        buf.len() > 0,
{
    match FieldRepresentation::of(buf[0]) {
        FieldRepresentation::Indexed => indexed_span(buf),
        FieldRepresentation::SizeUpdate => size_update_span(buf),
        representation => literal_span(buf, representation.prefix()),
    }
}

/// A measured field lies within the buffer and is not empty.
pub proof fn lemma_field_span_bounds(buf: Seq<u8>)
    requires
        buf.len() > 0,
    ensures
        field_span(buf) matches Ok(span) ==> 1 <= span.octets <= buf.len(),
{
    lemma_prefix_int_bounds(buf, 7);
    lemma_prefix_int_bounds(buf, 5);
    lemma_prefix_int_bounds(buf, 6);
    lemma_prefix_int_bounds(buf, 4);
}

/// The spans of the fields of a block, in the order of the block, or the
/// first error met in measuring them.
pub open spec fn block_spans(buf: Seq<u8>) -> Result<Seq<FieldSpan>, ParseError>
    decreases buf.len(),
    via block_spans_decreases
{
    if buf.len() == 0 {
        Ok(Seq::empty())
    } else {
        match field_span(buf) {
            Ok(span) => match block_spans(buf.skip(span.octets as int)) {
                Ok(rest) => Ok(seq![span] + rest),
                Err(e) => Err(e),
            },
            Err(e) => Err(e),
        }
    }
}

#[via_fn]
proof fn block_spans_decreases(buf: Seq<u8>) {
    if buf.len() > 0 {
        lemma_field_span_bounds(buf);
    }
}

/// The octets that `spans` occupy together.
pub open spec fn total_octets(spans: Seq<FieldSpan>) -> nat
    decreases spans.len(),
{
    if spans.len() == 0 {
        0
    } else {
        spans.first().octets + total_octets(spans.drop_first())
    }
}

/// A string depends on the octets of its length and on nothing else.
proof fn lemma_string_span_local(a: Seq<u8>, b: Seq<u8>, from: int)
    requires
        0 <= from <= a.len(),
        string_span(a.skip(from)) is Ok,
        b.len() >= from + prefix_int(a.skip(from), 7)->Ok_0.1,
        forall|at: int| from <= at < from + prefix_int(a.skip(from), 7)->Ok_0.1 ==> a[at] == b[at],
    ensures
        string_span(b.skip(from)) == string_span(a.skip(from)),
{
    lemma_prefix_int_bounds(a.skip(from), 7);
    lemma_prefix_int_local(a.skip(from), b.skip(from), 7);
}

/// A field depends on the octets it occupies and on nothing behind them:
/// two buffers that agree on these octets hold the same field.
pub proof fn lemma_field_span_local(a: Seq<u8>, b: Seq<u8>)
    requires
        a.len() > 0,
        field_span(a) is Ok,
        b.len() >= field_span(a)->Ok_0.octets,
        forall|at: int| 0 <= at < field_span(a)->Ok_0.octets ==> a[at] == b[at],
    ensures
        field_span(b) == field_span(a),
{
    let representation = FieldRepresentation::of(a[0]);
    let prefix = representation.prefix();
    lemma_field_span_bounds(a);
    lemma_prefix_int_bounds(a, prefix);
    lemma_prefix_int_local(a, b, prefix);
    if representation != FieldRepresentation::Indexed && representation
        != FieldRepresentation::SizeUpdate {
        let (index, index_octets) = prefix_int(a, prefix)->Ok_0;
        if index != 0 {
            lemma_prefix_int_bounds(a.skip(index_octets as int), 7);
            lemma_string_span_local(a, b, index_octets as int);
        } else {
            lemma_prefix_int_bounds(a.skip(1), 7);
            lemma_string_span_local(a, b, 1);
            let name = string_span(a.skip(1))->Ok_0;
            lemma_prefix_int_bounds(a.skip(1 + name as int), 7);
            lemma_string_span_local(a, b, 1 + name as int);
        }
    }
}

/// Measures an indexed field.
pub fn indexed_layout(buf: &[u8]) -> (layout: Result<FieldLayout, ParseError>)
    ensures
        layout_model(layout) == indexed_span(buf@),
{
    let (index, index_len) = parse_int(buf, 7)?;
    Ok(
        FieldLayout {
            consumed: index_len,
            resolvable: index >= STATIC_INDEX_MIN && index <= STATIC_INDEX_MAX,
        },
    )
}

/// Measures a change of the table's size.
pub fn size_update_layout(buf: &[u8]) -> (layout: Result<FieldLayout, ParseError>)
    ensures
        layout_model(layout) == size_update_span(buf@),
{
    let (_, consumed) = parse_int(buf, 5)?;
    Ok(FieldLayout { consumed, resolvable: false })
}

/// Measures a literal field whose first integer has the given prefix.
pub fn literal_layout(buf: &[u8], prefix: u8) -> (layout: Result<FieldLayout, ParseError>)
    ensures
        layout_model(layout) == literal_span(buf@, prefix),
{
    let (index, index_len) = parse_int(buf, prefix)?;
    proof {
        lemma_prefix_int_bounds(buf@, prefix);
    }
    let mut val_len = index_len;
    if index != 0 {
        let rest = &buf[index_len..buf.len()];
        assert(rest@ == buf@.skip(index_len as int));
        let (str_len, len) = parse_int(rest, 7)?;
        proof {
            lemma_prefix_int_bounds(rest@, 7);
        }
        val_len = val_len + str_len + len;
    } else {
        let rest = &buf[1..buf.len()];
        assert(rest@ == buf@.skip(1));
        let (name_len, len) = parse_int(rest, 7)?;
        proof {
            lemma_prefix_int_bounds(rest@, 7);
        }
        let key_len = name_len + len;
        if key_len + 1 >= buf.len() {
            return Err(ParseError::InvalidInput);
        }
        let rest = &buf[(1 + key_len)..buf.len()];
        assert(rest@ == buf@.skip(1 + key_len));
        let (value_len, len) = parse_int(rest, 7)?;
        proof {
            lemma_prefix_int_bounds(rest@, 7);
        }
        val_len = value_len + key_len + len + val_len;
    }
    if val_len > buf.len() {
        return Err(ParseError::InvalidInput);
    }
    Ok(FieldLayout { consumed: val_len, resolvable: index <= STATIC_INDEX_MAX })
}

/// Measures the field that starts at `buf[0]`.
pub fn field_layout(buf: &[u8]) -> (layout: Result<FieldLayout, ParseError>)
    requires
        buf.len() > 0,
    ensures
        layout_model(layout) == field_span(buf@),
{
    match FieldRepresentation::new(buf[0]) {
        FieldRepresentation::Indexed => indexed_layout(buf),
        FieldRepresentation::LiteralWithIncrementalIndexing => literal_layout(buf, 6),
        FieldRepresentation::SizeUpdate => size_update_layout(buf),
        FieldRepresentation::LiteralNeverIndexed => literal_layout(buf, 4),
        FieldRepresentation::LiteralWithoutIndexing => literal_layout(buf, 4),
    }
}

} // verus!
