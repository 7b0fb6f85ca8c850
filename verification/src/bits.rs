//! Fixed-width sign extension and bitfield arithmetic.
//!
//! Register values, immediates and addresses are all kept as `u32` bit
//! patterns; a value is interpreted as signed only at the point of use,
//! through [`as_signed`]. Immediates are sign-extended once, at decode time,
//! so plain 32-bit wrapping arithmetic is correct everywhere downstream.

use vstd::prelude::*;

verus! {

/// The signed (two's-complement) reading of a 32-bit pattern.
pub open spec fn as_signed(x: u32) -> int {
    x as i32 as int
}

/// Sign extension of the low 12 bits of `x` to a 32-bit pattern.
pub open spec fn sext12(x: u32) -> u32 {
    if x & 0x800 != 0 {
        (x & 0xfff) | 0xffff_f000
    } else {
        x & 0xfff
    }
}

/// Sign extension of the low 13 bits of `x` to a 32-bit pattern.
pub open spec fn sext13(x: u32) -> u32 {
    if x & 0x1000 != 0 {
        (x & 0x1fff) | 0xffff_e000
    } else {
        x & 0x1fff
    }
}

/// Sign extension of the low 21 bits of `x` to a 32-bit pattern.
pub open spec fn sext21(x: u32) -> u32 {
    if x & 0x10_0000 != 0 {
        (x & 0x1f_ffff) | 0xffe0_0000
    } else {
        x & 0x1f_ffff
    }
}

/// Sign extension of the low 8 bits of `x` to a 32-bit pattern.
pub open spec fn sext8(x: u32) -> u32 {
    if x & 0x80 != 0 {
        (x & 0xff) | 0xffff_ff00
    } else {
        x & 0xff
    }
}

/// Sign extension of the low 16 bits of `x` to a 32-bit pattern.
pub open spec fn sext16(x: u32) -> u32 {
    if x & 0x8000 != 0 {
        (x & 0xffff) | 0xffff_0000
    } else {
        x & 0xffff
    }
}

/// Sign-extend the low 12 bits of `x` to a 32-bit pattern.
pub fn sign_extend12(x: u32) -> (r: u32)
    ensures
        r == sext12(x),
{
    if x & 0x800 != 0 {
        (x & 0xfff) | 0xffff_f000
    } else {
        x & 0xfff
    }
}

/// Sign-extend the low 13 bits of `x` to a 32-bit pattern.
pub fn sign_extend13(x: u32) -> (r: u32)
    ensures
        r == sext13(x),
{
    if x & 0x1000 != 0 {
        (x & 0x1fff) | 0xffff_e000
    } else {
        x & 0x1fff
    }
}

/// Sign-extend the low 21 bits of `x` to a 32-bit pattern.
pub fn sign_extend21(x: u32) -> (r: u32)
    ensures
        r == sext21(x),
{
    if x & 0x10_0000 != 0 {
        (x & 0x1f_ffff) | 0xffe0_0000
    } else {
        x & 0x1f_ffff
    }
}

/// Sign-extend the low 8 bits of `x` to a 32-bit pattern.
pub fn sign_extend8(x: u32) -> (r: u32)
    ensures
        r == sext8(x),
{
    if x & 0x80 != 0 {
        (x & 0xff) | 0xffff_ff00
    } else {
        x & 0xff
    }
}

/// Sign-extend the low 16 bits of `x` to a 32-bit pattern.
pub fn sign_extend16(x: u32) -> (r: u32)
    ensures
        r == sext16(x),
{
    if x & 0x8000 != 0 {
        (x & 0xffff) | 0xffff_0000
    } else {
        x & 0xffff
    }
}

/// Sign-extend a 12-bit immediate code to a full-width signed value.
pub fn sext(x: u32) -> (r: i32)
    ensures
        r == sext12(x) as i32,
{
    let pattern: u32 = if x & 0x800 != 0 {
        (x & 0xfff) | 0xffff_f000
    } else {
        x & 0xfff
    };
    #[verifier::truncate] (pattern as i32)
}

/// Arithmetic shift right: the sign bit is replicated into the vacated
/// positions.
pub open spec fn sra32(x: u32, s: u32) -> u32
    recommends
        s < 32,
{
    if x & 0x8000_0000 != 0 {
        (x >> s) | !(0xffff_ffffu32 >> s)
    } else {
        x >> s
    }
}

/// Signed less-than on 32-bit patterns.
pub open spec fn signed_lt(x: u32, y: u32) -> bool {
    as_signed(x) < as_signed(y)
}

/// Compare two 32-bit patterns as signed values.
pub fn signed_less(x: u32, y: u32) -> (r: bool)
    ensures
        r == signed_lt(x, y),
{
    (#[verifier::truncate] (x as i32)) < (#[verifier::truncate] (y as i32))
}

/// Arithmetic shift right of a 32-bit pattern.
pub fn shift_right_arithmetic(x: u32, s: u32) -> (r: u32)
    requires
        s < 32,
    ensures
        r == sra32(x, s),
{
    if x & 0x8000_0000 != 0 {
        (x >> s) | !(0xffff_ffffu32 >> s)
    } else {
        x >> s
    }
}

/// Bounds of the bitfields sliced out of an instruction word.
pub proof fn lemma_field_bounds(w: u32)
    by (bit_vector)
    ensures
        w & 0x7f < 128,
        (w >> 7) & 0x1f < 32,
        (w >> 12) & 0x7 < 8,
        (w >> 15) & 0x1f < 32,
        (w >> 20) & 0x1f < 32,
        w >> 25 < 128,
        w >> 20 < 0x1000,
        (w >> 24) & 0xf < 16,
        (w >> 20) & 0xf < 16,
        w & 0x1f < 32,
        w & 0xff < 256,
        w & 0xfff < 0x1000,
{
}

/// `as_signed` in terms of plain arithmetic: values at or above `2^31`
/// read as negative numbers, all others as themselves.
pub proof fn lemma_as_signed(x: u32)
    by (bit_vector)
    ensures
        x < 0x8000_0000 ==> as_signed(x) == x as int,
        x >= 0x8000_0000 ==> as_signed(x) == x as int - 0x1_0000_0000,
        (x as i32) as u32 == x,
{
}

/// `sra32` agrees with the arithmetic shift of the signed reading.
pub proof fn lemma_sra32(x: u32, s: u32)
    by (bit_vector)
    requires
        s < 32,
    ensures
        sra32(x, s) == ((x as i32) >> s) as u32,
{
}

} // verus!
