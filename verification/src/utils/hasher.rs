//! A 64-bit integer mix in the style of Jenkins and Wang.
use vstd::arithmetic::div_mod::{
    lemma_fundamental_div_mod, lemma_fundamental_div_mod_converse, lemma_small_mod,
};
use vstd::prelude::*;

verus! {

/// Number of values of a `u64`.
pub open spec fn word_range() -> int {
    0x1_0000_0000_0000_0000
}

/// `x` reduced modulo 2^64.
pub open spec fn wrap64(x: int) -> u64 {
    (x % word_range()) as u64
}

/// The mix as a chain of seven steps on 64-bit words: multiplications that
/// wrap around, each followed by folding the high bits of the word into its
/// low bits.
pub open spec fn mix64(hash: u64) -> u64 {
    let a = wrap64(hash * 0x1f_ffff - 1);
    let b = a ^ (a >> 24);
    let c = wrap64(b * 265);
    let d = c ^ (c >> 14);
    let e = wrap64(d * 21);
    let f = e ^ (e >> 28);
    wrap64(f * 0x8000_0001)
}

/// The word that `mix64` takes to `mixed`: the steps of the mix undone
/// from the last to the first. A product is undone by the product with the
/// inverse of the factor modulo 2^64, a fold by folding again until the
/// shifts run out of the word.
pub open spec fn unmix64(mixed: u64) -> u64 {
    let f = wrap64(mixed * 0x3fff_ffff_8000_0001);
    let e = f ^ (f >> 28) ^ (f >> 56);
    let d = wrap64(e * 0xcf3c_f3cf_3cf3_cf3d);
    let c = d ^ (d >> 14) ^ (d >> 28) ^ (d >> 42) ^ (d >> 56);
    let b = wrap64(c * 0xd38f_f08b_1c03_dd39);
    let a = b ^ (b >> 24) ^ (b >> 48);
    wrap64((a + 1) * 0x7fff_fbff_ffdf_ffff)
}

/// Two factors whose product is one modulo 2^64 undo each other, also
/// where a constant was added before the second product.
proof fn lemma_product_undone(x: u64, factor: int, inverse: int, turns: int, shift: int)
    requires
        factor * inverse == 1 + turns * word_range(),
    ensures
        wrap64((wrap64(x * factor - shift) + shift) * inverse) == x,
        wrap64(wrap64((x + shift) * inverse) * factor - shift) == x,
{
    let m = word_range();
    let there = x * factor - shift;
    lemma_fundamental_div_mod(there, m);
    let q = there / m;
    assert((wrap64(there) + shift) * inverse == x + (x * turns - q * inverse) * m)
        by (nonlinear_arith)
        requires
            there == x * factor - shift,
            there == m * q + wrap64(there),
            factor * inverse == 1 + turns * m,
    ;
    lemma_wrap_unique(x as int, (wrap64(there) + shift) * inverse, -(x * turns - q * inverse));
    let back = (x + shift) * inverse;
    lemma_fundamental_div_mod(back, m);
    let p = back / m;
    assert(wrap64(back) * factor - shift == x + ((x + shift) * turns - p * factor) * m)
        by (nonlinear_arith)
        requires
            back == (x + shift) * inverse,
            back == m * p + wrap64(back),
            factor * inverse == 1 + turns * m,
    ;
    lemma_wrap_unique(x as int, wrap64(back) * factor - shift, -((x + shift) * turns - p * factor));
}

/// A fold is undone by folding until the shifts run out of the word.
proof fn lemma_fold_undone(x: u64)
    ensures
        ({
            let y = x ^ (x >> 24);
            y ^ (y >> 24) ^ (y >> 48)
        }) == x,
        ({
            let y = x ^ (x >> 24) ^ (x >> 48);
            y ^ (y >> 24)
        }) == x,
        ({
            let y = x ^ (x >> 14);
            y ^ (y >> 14) ^ (y >> 28) ^ (y >> 42) ^ (y >> 56)
        }) == x,
        ({
            let y = x ^ (x >> 14) ^ (x >> 28) ^ (x >> 42) ^ (x >> 56);
            y ^ (y >> 14)
        }) == x,
        ({
            let y = x ^ (x >> 28);
            y ^ (y >> 28) ^ (y >> 56)
        }) == x,
        ({
            let y = x ^ (x >> 28) ^ (x >> 56);
            y ^ (y >> 28)
        }) == x,
{
    assert(({
        let y = x ^ (x >> 24);
        y ^ (y >> 24) ^ (y >> 48)
    }) == x) by (bit_vector);
    assert(({
        let y = x ^ (x >> 24) ^ (x >> 48);
        y ^ (y >> 24)
    }) == x) by (bit_vector);
    assert(({
        let y = x ^ (x >> 14);
        y ^ (y >> 14) ^ (y >> 28) ^ (y >> 42) ^ (y >> 56)
    }) == x) by (bit_vector);
    assert(({
        let y = x ^ (x >> 14) ^ (x >> 28) ^ (x >> 42) ^ (x >> 56);
        y ^ (y >> 14)
    }) == x) by (bit_vector);
    assert(({
        let y = x ^ (x >> 28);
        y ^ (y >> 28) ^ (y >> 56)
    }) == x) by (bit_vector);
    assert(({
        let y = x ^ (x >> 28) ^ (x >> 56);
        y ^ (y >> 28)
    }) == x) by (bit_vector);
}

/// The mix loses nothing: every word can be had back from its mix.
pub proof fn lemma_mix64_undone(hash: u64)
    ensures
        unmix64(mix64(hash)) == hash,
{
    let a = wrap64(hash * 0x1f_ffff - 1);
    let b = a ^ (a >> 24);
    let c = wrap64(b * 265);
    let d = c ^ (c >> 14);
    let e = wrap64(d * 21);
    let f = e ^ (e >> 28);
    lemma_product_undone(f, 0x8000_0001, 0x3fff_ffff_8000_0001, 0x2000_0000, 0);
    lemma_fold_undone(e);
    lemma_product_undone(d, 21, 0xcf3c_f3cf_3cf3_cf3d, 17, 0);
    lemma_fold_undone(c);
    lemma_product_undone(b, 265, 0xd38f_f08b_1c03_dd39, 219, 0);
    lemma_fold_undone(a);
    lemma_product_undone(hash, 0x1f_ffff, 0x7fff_fbff_ffdf_ffff, 0xf_ffff, 1);
}

/// Every word is the mix of a word.
pub proof fn lemma_unmix64_undone(mixed: u64)
    ensures
        mix64(unmix64(mixed)) == mixed,
{
    let f = wrap64(mixed * 0x3fff_ffff_8000_0001);
    let e = f ^ (f >> 28) ^ (f >> 56);
    let d = wrap64(e * 0xcf3c_f3cf_3cf3_cf3d);
    let c = d ^ (d >> 14) ^ (d >> 28) ^ (d >> 42) ^ (d >> 56);
    let b = wrap64(c * 0xd38f_f08b_1c03_dd39);
    let a = b ^ (b >> 24) ^ (b >> 48);
    lemma_product_undone(a, 0x1f_ffff, 0x7fff_fbff_ffdf_ffff, 0xf_ffff, 1);
    lemma_fold_undone(b);
    lemma_product_undone(c, 265, 0xd38f_f08b_1c03_dd39, 219, 0);
    lemma_fold_undone(d);
    lemma_product_undone(e, 21, 0xcf3c_f3cf_3cf3_cf3d, 17, 0);
    lemma_fold_undone(f);
    lemma_product_undone(mixed, 0x8000_0001, 0x3fff_ffff_8000_0001, 0x2000_0000, 0);
}

/// Two words with the same mix are the same word.
pub proof fn lemma_mix64_injective(a: u64, b: u64)
    requires
        mix64(a) == mix64(b),
    ensures
        a == b,
{
    lemma_mix64_undone(a);
    lemma_mix64_undone(b);
}

proof fn lemma_shl_is_mul(x: u64)
    ensures
        x << 21 == wrap64(x * 0x20_0000),
        x << 3 == wrap64(x * 8),
        x << 8 == wrap64(x * 256),
        x << 2 == wrap64(x * 4),
        x << 4 == wrap64(x * 16),
        x << 31 == wrap64(x * 0x8000_0000),
{
    assert(x << 21 == (x * 0x20_0000) % 0x1_0000_0000_0000_0000) by (bit_vector);
    assert(x << 3 == (x * 8) % 0x1_0000_0000_0000_0000) by (bit_vector);
    assert(x << 8 == (x * 256) % 0x1_0000_0000_0000_0000) by (bit_vector);
    assert(x << 2 == (x * 4) % 0x1_0000_0000_0000_0000) by (bit_vector);
    assert(x << 4 == (x * 16) % 0x1_0000_0000_0000_0000) by (bit_vector);
    assert(x << 31 == (x * 0x8000_0000) % 0x1_0000_0000_0000_0000) by (bit_vector);
}

/// A word is its own residue.
proof fn lemma_wrap_word(a: u64)
    ensures
        a == wrap64(a as int),
{
    lemma_small_mod(a as nat, word_range() as nat);
}

/// A value in the range of a word that differs from `x` by a multiple of
/// 2^64 is the residue of `x`.
proof fn lemma_wrap_unique(r: int, x: int, k: int)
    requires
        0 <= r < word_range(),
        r == x + k * word_range(),
    ensures
        r == wrap64(x),
{
    lemma_fundamental_div_mod_converse(x, word_range(), -k, r);
}

/// Wrapping addition adds residues.
proof fn lemma_wrapping_add(a: u64, b: u64, x: int, y: int)
    requires
        a == wrap64(x),
        b == wrap64(y),
    ensures
        a.wrapping_add(b) == wrap64(x + y),
{
    let m = word_range();
    lemma_fundamental_div_mod(x, m);
    lemma_fundamental_div_mod(y, m);
    let c: int = if a + b > u64::MAX { 1 } else { 0 };
    let r = a.wrapping_add(b) as int;
    assert(r == a + b - c * m);
    assert(r == (x + y) + (-(x / m) - (y / m) - c) * m) by (nonlinear_arith)
        requires
            r == a + b - c * m,
            x == m * (x / m) + a,
            y == m * (y / m) + b,
    ;
    lemma_wrap_unique(r, x + y, -(x / m) - (y / m) - c);
}

/// Wrapping subtraction subtracts residues.
proof fn lemma_wrapping_sub(a: u64, b: u64, x: int, y: int)
    requires
        a == wrap64(x),
        b == wrap64(y),
    ensures
        a.wrapping_sub(b) == wrap64(x - y),
{
    let m = word_range();
    lemma_fundamental_div_mod(x, m);
    lemma_fundamental_div_mod(y, m);
    let c: int = if a - b < 0 { 1 } else { 0 };
    let r = a.wrapping_sub(b) as int;
    assert(r == a - b + c * m);
    assert(r == (x - y) + (-(x / m) + (y / m) + c) * m) by (nonlinear_arith)
        requires
            r == a - b + c * m,
            x == m * (x / m) + a,
            y == m * (y / m) + b,
    ;
    lemma_wrap_unique(r, x - y, -(x / m) + (y / m) + c);
}

/// The first step of the mix: `(x << 21) - x - 1` on words.
proof fn lemma_step_negate(x: u64)
    ensures
        x.wrapping_shl(21).wrapping_sub(x).wrapping_sub(1) == wrap64(x * 0x1f_ffff - 1),
{
    lemma_shl_is_mul(x);
    lemma_wrap_word(x);
    lemma_wrap_word(1);
    let s = x.wrapping_shl(21);
    lemma_wrapping_sub(s, x, x * 0x20_0000, x as int);
    lemma_wrapping_sub(s.wrapping_sub(x), 1, x * 0x20_0000 - x, 1);
}

/// `x + (x << 3) + (x << 8)` on words is a multiplication by 265.
proof fn lemma_step_265(x: u64)
    ensures
        x.wrapping_add(x.wrapping_shl(3)).wrapping_add(x.wrapping_shl(8)) == wrap64(x * 265),
{
    lemma_shl_is_mul(x);
    lemma_wrap_word(x);
    lemma_wrapping_add(x, x.wrapping_shl(3), x as int, x * 8);
    lemma_wrapping_add(x.wrapping_add(x.wrapping_shl(3)), x.wrapping_shl(8), x + x * 8, x * 256);
}

/// `x + (x << 2) + (x << 4)` on words is a multiplication by 21.
proof fn lemma_step_21(x: u64)
    ensures
        x.wrapping_add(x.wrapping_shl(2)).wrapping_add(x.wrapping_shl(4)) == wrap64(x * 21),
{
    lemma_shl_is_mul(x);
    lemma_wrap_word(x);
    lemma_wrapping_add(x, x.wrapping_shl(2), x as int, x * 4);
    lemma_wrapping_add(x.wrapping_add(x.wrapping_shl(2)), x.wrapping_shl(4), x + x * 4, x * 16);
}

/// `x + (x << 31)` on words is a multiplication by 2^31 + 1.
proof fn lemma_step_spread(x: u64)
    ensures
        x.wrapping_add(x.wrapping_shl(31)) == wrap64(x * 0x8000_0001),
{
    lemma_shl_is_mul(x);
    lemma_wrap_word(x);
    lemma_wrapping_add(x, x.wrapping_shl(31), x as int, x * 0x8000_0000);
}

/// Mixes the bits of `hash` so that a change of any input bit spreads over
/// the whole word.
pub fn jenkins64(hash: u64) -> (mixed: u64)
    ensures
        mixed == mix64(hash),
{
    let mut hash = hash;
    proof {
        lemma_step_negate(hash);
    }
    hash = hash.wrapping_shl(21).wrapping_sub(hash).wrapping_sub(1);
    hash = hash ^ hash.wrapping_shr(24);
    proof {
        lemma_step_265(hash);
    }
    hash = hash.wrapping_add(hash.wrapping_shl(3)).wrapping_add(hash.wrapping_shl(8));
    hash = hash ^ hash.wrapping_shr(14);
    proof {
        lemma_step_21(hash);
    }
    hash = hash.wrapping_add(hash.wrapping_shl(2)).wrapping_add(hash.wrapping_shl(4));
    hash = hash ^ hash.wrapping_shr(28);
    proof {
        lemma_step_spread(hash);
    }
    hash = hash.wrapping_add(hash.wrapping_shl(31));
    hash
}

} // verus!
