//! Modular arithmetic on 8- and 16-bit machine words, stated over `int` and
//! mirrored by executable helpers. The 8080 wraps all register arithmetic:
//! 8-bit results modulo 256, 16-bit results modulo 65536.

use vstd::prelude::*;

verus! {

/// The low 8 bits of an integer.
pub open spec fn wrap8(x: int) -> u8 {
    (x % 0x100) as u8
}

/// The low 16 bits of an integer.
pub open spec fn wrap16(x: int) -> u16 {
    (x % 0x10000) as u16
}

/// The 16-bit word composed from a high and a low byte, as a register pair
/// composes: `(hi << 8) | lo`.
pub open spec fn pair(hi: u8, lo: u8) -> u16 {
    (hi * 0x100 + lo) as u16
}

/// The high byte of a 16-bit word.
pub open spec fn hi_byte(x: u16) -> u8 {
    (x / 0x100) as u8
}

/// The low byte of a 16-bit word.
pub open spec fn lo_byte(x: u16) -> u8 {
    (x % 0x100) as u8
}

/// How many of the 8 bits of `x` are set.
pub open spec fn popcount(x: u8) -> int {
    let v = x as int;
    v % 2 + (v / 2) % 2 + (v / 4) % 2 + (v / 8) % 2 + (v / 16) % 2 + (v / 32) % 2 + (v / 64) % 2
        + (v / 128) % 2
}

/// Even parity over all 8 bits of `x`.
pub open spec fn parity_of(x: u8) -> bool {
    popcount(x) % 2 == 0
}

/// 2 to the power `k`, for the bit positions of a byte.
pub open spec fn pow2i(k: int) -> int
    decreases k,
{
    if k <= 0 {
        1
    } else {
        2 * pow2i(k - 1)
    }
}

/// Bit `k` of the byte `b`.
pub open spec fn bit_of(b: u8, k: int) -> bool {
    (b as int / pow2i(k)) % 2 == 1
}

/// A 16-bit word recomposes from its two bytes.
pub proof fn lemma_pair_split(x: u16)
    ensures
        pair(hi_byte(x), lo_byte(x)) == x,
{
    vstd::arithmetic::div_mod::lemma_fundamental_div_mod(x as int, 0x100);
}

/// The two bytes of a composed word are the bytes it was composed from.
pub proof fn lemma_split_pair(hi: u8, lo: u8)
    ensures
        hi_byte(pair(hi, lo)) == hi,
        lo_byte(pair(hi, lo)) == lo,
{
    vstd::arithmetic::div_mod::lemma_div_multiples_vanish_fancy(hi as int, lo as int, 0x100);
    vstd::arithmetic::div_mod::lemma_mod_multiples_vanish(hi as int, lo as int, 0x100);
    vstd::arithmetic::div_mod::lemma_small_mod(lo as nat, 0x100);
}

/// Reducing the first summand modulo 65536 before adding is harmless.
pub proof fn lemma_wrap16_add(x: int, y: int)
    ensures
        wrap16(wrap16(x) + y) == wrap16(x + y),
{
    vstd::arithmetic::div_mod::lemma_add_mod_noop_right(y, x, 0x10000);
}

/// A 16-bit value is already reduced modulo 65536.
pub proof fn lemma_wrap16_id(x: u16)
    ensures
        wrap16(x as int) == x,
{
    vstd::arithmetic::div_mod::lemma_small_mod(x as nat, 0x10000);
}

/// 16-bit addition that wraps modulo 65536.
pub fn wadd16(x: u16, d: u16) -> (r: u16)
    ensures
        r == wrap16(x + d),
{
    let t: u32 = x as u32 + d as u32;
    (t % 0x10000) as u16
}

/// 16-bit subtraction that wraps modulo 65536.
pub fn wsub16(x: u16, d: u16) -> (r: u16)
    ensures
        r == wrap16(x - d),
{
    let t: u32 = x as u32 + 0x10000 - d as u32;
    proof {
        vstd::arithmetic::div_mod::lemma_mod_add_multiples_vanish(x - d, 0x10000);
    }
    (t % 0x10000) as u16
}

/// Composes a 16-bit word from a high and a low byte.
pub fn join_bytes(hi: u8, lo: u8) -> (r: u16)
    ensures
        r == pair(hi, lo),
{
    hi as u16 * 0x100 + lo as u16
}

/// The high byte of a 16-bit word.
pub fn high_of(x: u16) -> (r: u8)
    ensures
        r == hi_byte(x),
{
    (x / 0x100) as u8
}

/// The low byte of a 16-bit word.
pub fn low_of(x: u16) -> (r: u8)
    ensures
        r == lo_byte(x),
{
    (x % 0x100) as u8
}

/// Whether the byte `x` has even parity.
pub fn parity_even(x: u8) -> (r: bool)
    ensures
        r == parity_of(x),
{
    let cnt: u8 = x % 2 + (x / 2) % 2 + (x / 4) % 2 + (x / 8) % 2 + (x / 16) % 2 + (x / 32) % 2
        + (x / 64) % 2 + (x / 128) % 2;
    cnt % 2 == 0
}

/// 2 to the power `k`, for bit positions of a byte.
pub fn pow2_small(k: u8) -> (r: u32)
    requires
        k <= 8,
    ensures
        r == pow2i(k as int),
        1 <= r <= 256,
{
    proof {
        reveal_with_fuel(pow2i, 9);
    }
    if k == 0 {
        1
    } else if k == 1 {
        2
    } else if k == 2 {
        4
    } else if k == 3 {
        8
    } else if k == 4 {
        16
    } else if k == 5 {
        32
    } else if k == 6 {
        64
    } else if k == 7 {
        128
    } else {
        256
    }
}

} // verus!
