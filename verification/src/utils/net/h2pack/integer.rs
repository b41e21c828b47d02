//! Integers with an N-bit prefix.
//!
//! An integer starts in the low `prefix` bits of its first octet. When these
//! bits are all set, the value goes on in continuation octets, seven bits
//! each, least significant group first; the high bit of a continuation octet
//! says that another one follows.
use super::error::ParseError;
use vstd::arithmetic::power2::{lemma2_to64, pow2};
use vstd::prelude::*;

verus! {

/// The largest number of octets that one integer may occupy.
pub const OCTET_LIMIT: usize = 5;

/// The value `2^prefix - 1` of a prefix whose bits are all set.
pub open spec fn prefix_mask(prefix: u8) -> nat
    recommends
        1 <= prefix <= 8,
{
    if prefix == 1 {
        1
    } else if prefix == 2 {
        3
    } else if prefix == 3 {
        7
    } else if prefix == 4 {
        15
    } else if prefix == 5 {
        31
    } else if prefix == 6 {
        63
    } else if prefix == 7 {
        127
    } else {
        255
    }
}

/// The value held by the low `prefix` bits of `octet`.
pub open spec fn low_bits(octet: u8, prefix: u8) -> nat
    recommends
        1 <= prefix <= 8,
{
    let octet = octet as nat;
    if prefix == 1 {
        octet % 2
    } else if prefix == 2 {
        octet % 4
    } else if prefix == 3 {
        octet % 8
    } else if prefix == 4 {
        octet % 16
    } else if prefix == 5 {
        octet % 32
    } else if prefix == 6 {
        octet % 64
    } else if prefix == 7 {
        octet % 128
    } else {
        octet
    }
}

/// Whether `buf[at]` exists and announces a further octet.
pub open spec fn continues(buf: Seq<u8>, at: int) -> bool {
    0 <= at < buf.len() && buf[at] >= 128
}

/// The seven value bits of `buf[at]`, or zero past the end of `buf`.
pub open spec fn group(buf: Seq<u8>, at: int) -> nat {
    if 0 <= at < buf.len() {
        (buf[at] % 128) as nat
    } else {
        0
    }
}

/// How many of the octets `buf[1]`, `buf[2]`, ... in a row announce a
/// further octet. The count stops at four: with the first octet and the one
/// that the fourth announces the limit is passed.
pub open spec fn continued_octets(buf: Seq<u8>) -> nat {
    if !continues(buf, 1) {
        0
    } else if !continues(buf, 2) {
        1
    } else if !continues(buf, 3) {
        2
    } else if !continues(buf, 4) {
        3
    } else {
        4
    }
}

/// What the octets `buf[1..=count]` add to the value: the group of octet
/// `i` weighs `2^(7 * (i - 1))`. Below the limit there are at most four such
/// octets.
pub open spec fn continuation_value(buf: Seq<u8>, count: nat) -> nat
    recommends
        count < OCTET_LIMIT,
{
    (if count >= 1 { group(buf, 1) } else { 0 })
    + (if count >= 2 { group(buf, 2) * 0x80 } else { 0 })
    + (if count >= 3 { group(buf, 3) * 0x4000 } else { 0 })
    + (if count >= 4 { group(buf, 4) * 0x20_0000 } else { 0 })
}

/// The integer that starts at `buf[0]` with the given prefix width: its
/// value and the number of octets it occupies.
pub open spec fn prefix_int(buf: Seq<u8>, prefix: u8) -> Result<(nat, nat), ParseError> {
    if prefix < 1 || prefix > 8 {
        Err(ParseError::InvalidInteger)
    } else if buf.len() < 1 {
        Err(ParseError::NotEnoughOctets)
    } else if low_bits(buf[0], prefix) < prefix_mask(prefix) {
        Ok((low_bits(buf[0], prefix), 1))
    } else {
        let more = continued_octets(buf);
        if more + 2 > OCTET_LIMIT {
            Err(ParseError::InvalidInteger)
        } else if more + 2 > buf.len() {
            Err(ParseError::NotEnoughOctets)
        } else {
            Ok((prefix_mask(prefix) + continuation_value(buf, more + 1), more + 2))
        }
    }
}

/// A decoded integer as a pair of mathematical naturals.
pub open spec fn int_model(decoded: Result<(usize, usize), ParseError>) -> Result<
    (nat, nat),
    ParseError,
> {
    match decoded {
        Ok((value, octets)) => Ok((value as nat, octets as nat)),
        Err(e) => Err(e),
    }
}

/// The largest value that an integer of `OCTET_LIMIT` octets can have.
pub open spec fn max_value() -> nat {
    255 + 0x0fff_ffff
}

/// The prefix in powers of two: its bits are the octet modulo `2^prefix`,
/// and all of them set make `2^prefix - 1`.
pub proof fn lemma_prefix_pow2(octet: u8, prefix: u8)
    requires
        1 <= prefix <= 8,
    ensures
        prefix_mask(prefix) == pow2(prefix as nat) - 1,
        low_bits(octet, prefix) == (octet as nat) % pow2(prefix as nat),
        low_bits(octet, prefix) <= prefix_mask(prefix),
{
    lemma2_to64();
    let modulus = pow2(prefix as nat);
    let octet = octet as nat;
    if prefix == 1 {
        assert(octet % modulus == octet % 2);
    } else if prefix == 2 {
        assert(octet % modulus == octet % 4);
    } else if prefix == 3 {
        assert(octet % modulus == octet % 8);
    } else if prefix == 4 {
        assert(octet % modulus == octet % 16);
    } else if prefix == 5 {
        assert(octet % modulus == octet % 32);
    } else if prefix == 6 {
        assert(octet % modulus == octet % 64);
    } else if prefix == 7 {
        assert(octet % modulus == octet % 128);
    } else {
        assert(octet % modulus == octet % 256);
    }
}

/// An integer whose value is less than `2^prefix - 1` occupies one octet:
/// whatever stands above the prefix bits and behind the first octet, the
/// decoded integer is that value, read from one octet.
pub proof fn lemma_single_octet(buf: Seq<u8>, prefix: u8, value: nat)
    requires
        1 <= prefix <= 8,
        buf.len() >= 1,
        (buf[0] as nat) % pow2(prefix as nat) == value,
        value < pow2(prefix as nat) - 1,
    ensures
        prefix_int(buf, prefix) == Ok::<(nat, nat), ParseError>((value, 1)),
{
    lemma_prefix_pow2(buf[0], prefix);
}

/// The value `2^prefix - 1` is where the continuation form begins. An
/// integer is read from its first octet alone exactly when the prefix bits
/// hold less; with all prefix bits set it takes at least two octets, or
/// cannot be read. So the integers of one octet are those below
/// `2^prefix - 1`, and every other integer is at least that.
pub proof fn lemma_continuation_threshold(buf: Seq<u8>, prefix: u8)
    requires
        1 <= prefix <= 8,
        buf.len() >= 1,
    ensures
        low_bits(buf[0], prefix) < prefix_mask(prefix) <==> prefix_int(buf, prefix) == Ok::<
            (nat, nat),
            ParseError,
        >((low_bits(buf[0], prefix), 1)),
        low_bits(buf[0], prefix) < prefix_mask(prefix) || low_bits(buf[0], prefix) == prefix_mask(
            prefix,
        ),
        low_bits(buf[0], prefix) == prefix_mask(prefix) ==> (prefix_int(buf, prefix) matches Ok(
            (_, octets),
        ) ==> octets >= 2),
        prefix_int(buf, prefix) matches Ok((value, octets)) ==> (octets == 1 <==> value
            < prefix_mask(prefix)),
{
    lemma_prefix_pow2(buf[0], prefix);
}

/// An integer whose fifth octet still announces a further octet is refused.
pub proof fn lemma_too_many_octets(buf: Seq<u8>, prefix: u8)
    requires
        1 <= prefix <= 8,
        buf.len() >= OCTET_LIMIT,
        low_bits(buf[0], prefix) == prefix_mask(prefix),
        forall|at: int| 1 <= at < OCTET_LIMIT ==> buf[at] >= 128,
    ensures
        prefix_int(buf, prefix) == Err::<(nat, nat), ParseError>(ParseError::InvalidInteger),
{
}

/// An integer asked of no octets at all cannot be read.
pub proof fn lemma_no_octets(prefix: u8)
    requires
        1 <= prefix <= 8,
    ensures
        prefix_int(Seq::<u8>::empty(), prefix) == Err::<(nat, nat), ParseError>(
            ParseError::NotEnoughOctets,
        ),
{
}

/// A decoded integer lies within the buffer and below the largest value
/// that the octet limit admits.
pub proof fn lemma_prefix_int_bounds(buf: Seq<u8>, prefix: u8)
    ensures
        prefix_int(buf, prefix) matches Ok((value, octets)) ==> 1 <= octets <= OCTET_LIMIT && octets
            <= buf.len() && value <= max_value(),
{
    if 1 <= prefix <= 8 && buf.len() >= 1 {
        lemma_prefix_pow2(buf[0], prefix);
    }
}

/// An integer depends on the octets it occupies and on nothing behind them.
pub proof fn lemma_prefix_int_local(a: Seq<u8>, b: Seq<u8>, prefix: u8)
    requires
        prefix_int(a, prefix) is Ok,
        b.len() >= prefix_int(a, prefix)->Ok_0.1,
        forall|at: int| 0 <= at < prefix_int(a, prefix)->Ok_0.1 ==> a[at] == b[at],
    ensures
        prefix_int(b, prefix) == prefix_int(a, prefix),
{
}

/// The mask that selects the low `prefix` bits of an octet.
proof fn lemma_mask_bits(octet: u8, prefix: u8)
    requires
        1 <= prefix <= 8,
    ensures
        prefix < 8 ==> (1u8 << prefix) >= 1 && (1u8 << prefix) - 1 == prefix_mask(prefix),
        prefix < 8 ==> octet & (((1u8 << prefix) - 1) as u8) == low_bits(octet, prefix),
        octet & 0xff == low_bits(octet, 8),
{
    assert((1u8 << 1u8) == 2 && (1u8 << 2u8) == 4 && (1u8 << 3u8) == 8 && (1u8 << 4u8) == 16 && (1u8
        << 5u8) == 32 && (1u8 << 6u8) == 64 && (1u8 << 7u8) == 128) by (bit_vector);
    assert(octet & 1 == octet % 2 && octet & 3 == octet % 4 && octet & 7 == octet % 8 && octet & 15
        == octet % 16 && octet & 31 == octet % 32 && octet & 63 == octet % 64 && octet & 127
        == octet % 128) by (bit_vector);
    assert(octet & 0xff == octet) by (bit_vector);
}

/// What a continuation octet holds: its seven value bits, moved to their
/// place, and the bit that announces a further octet.
proof fn lemma_group_bits(octet: u8, shift: u32)
    requires
        shift == 0 || shift == 7 || shift == 14 || shift == 21,
    ensures
        (octet & 0x7f) == octet % 128,
        (octet & 0x80 != 0x80) <==> octet < 128,
        shift == 0 ==> (((octet & 0x7f) as usize) << shift) == (octet % 128),
        shift == 7 ==> (((octet & 0x7f) as usize) << shift) == (octet % 128) * 0x80,
        shift == 14 ==> (((octet & 0x7f) as usize) << shift) == (octet % 128) * 0x4000,
        shift == 21 ==> (((octet & 0x7f) as usize) << shift) == (octet % 128) * 0x20_0000,
{
    assert((octet & 0x7f) == octet % 128) by (bit_vector);
    assert((octet & 0x80 != 0x80) <==> octet < 128) by (bit_vector);
    assert((((octet & 0x7f) as usize) << 0u32) == (octet % 128)) by (bit_vector);
    assert((((octet & 0x7f) as usize) << 7u32) == (octet % 128) * 0x80) by (bit_vector);
    assert((((octet & 0x7f) as usize) << 14u32) == (octet % 128) * 0x4000) by (bit_vector);
    assert((((octet & 0x7f) as usize) << 21u32) == (octet % 128) * 0x20_0000) by (bit_vector);
}

/// Decodes the integer that starts at `buf[0]` and whose first octet holds
/// `prefix` bits of it. Returns the value and the number of octets read.
pub fn parse_int(buf: &[u8], prefix: u8) -> (decoded: Result<(usize, usize), ParseError>)
    ensures
        int_model(decoded) == prefix_int(buf@, prefix),
{
    if prefix < 1 || prefix > 8 {
        return Err(ParseError::InvalidInteger);
    }
    if buf.len() < 1 {
        return Err(ParseError::NotEnoughOctets);
    }
    proof {
        lemma_mask_bits(buf[0], prefix);
    }
    let mask: u8 = if prefix == 8 {
        0xffu8
    } else {
        (1u8 << prefix).wrapping_sub(1)
    };
    let mut value: usize = (buf[0] & mask) as usize;
    if value < (mask as usize) {
        return Ok((value, 1));
    }
    let mut len: usize = 1;
    let mut shift: u32 = 0;
    while len < buf.len()
        invariant
            1 <= prefix <= 8,
            low_bits(buf@[0], prefix) >= prefix_mask(prefix),
            1 <= len < OCTET_LIMIT,
            len <= buf.len(),
            shift == 7 * (len - 1),
            forall|at: int| 1 <= at < len ==> continues(buf@, at),
            value == prefix_mask(prefix) + continuation_value(buf@, (len - 1) as nat),
        decreases buf.len() - len,
    {
        let b: u8 = buf[len];
        proof {
            lemma_group_bits(b, shift);
        }
        len += 1;
        value += ((b & 0x7f) as usize) << shift;
        if b & 0x80 != 0x80 {
            return Ok((value, len));
        }
        if len == OCTET_LIMIT {
            return Err(ParseError::InvalidInteger);
        }
        shift += 7;
    }
    Err(ParseError::NotEnoughOctets)
}

} // verus!
