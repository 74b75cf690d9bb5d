//! Double-precision scalars, carried through verified code as their IEEE-754
//! bit patterns. Each arithmetic primitive below is a deterministic function
//! of the operands' bit patterns, so each gets an uninterpreted name that the
//! rest of the library's contracts are stated over.

use vstd::prelude::*;

verus! {

/// Bit pattern of the sum of the two IEEE-754 doubles with these bit patterns.
pub uninterp spec fn dbl_add_bits(a: u64, b: u64) -> u64;

/// Bit pattern of the difference of the two IEEE-754 doubles with these bit patterns.
pub uninterp spec fn dbl_sub_bits(a: u64, b: u64) -> u64;

/// Bit pattern of the product of the two IEEE-754 doubles with these bit patterns.
pub uninterp spec fn dbl_mul_bits(a: u64, b: u64) -> u64;

/// Bit pattern of the quotient of the two IEEE-754 doubles with these bit patterns.
pub uninterp spec fn dbl_div_bits(a: u64, b: u64) -> u64;

/// Bit pattern of the natural logarithm of the IEEE-754 double with this bit pattern.
pub uninterp spec fn dbl_ln_bits(a: u64) -> u64;

/// Whether the IEEE-754 double with bit pattern `a` compares greater than the
/// one with bit pattern `b`.
pub uninterp spec fn dbl_gt_bits(a: u64, b: u64) -> bool;

/// Bit pattern of the IEEE-754 double holding this integer value (exact,
/// since every u32 value is representable).
pub uninterp spec fn u32_to_dbl_bits(n: u32) -> u64;

/// The `as`-cast of the IEEE-754 double with this bit pattern to u32:
/// truncated toward zero, saturated at the type's range, zero for NaN.
pub uninterp spec fn dbl_to_u32_bits(a: u64) -> u32;

/// Relies on std's addition of two doubles. `num::complex::Complex64::new`
/// and `bytemuck::cast` only rebuild the operands from their bit patterns.
#[verifier::external_body]
pub(crate) fn dbl_add(a: u64, b: u64) -> (r: u64)
    ensures
        r == dbl_add_bits(a, b),
{
    let p = num::complex::Complex64::new(bytemuck::cast(a), bytemuck::cast(b));
    (p.re + p.im).to_bits()
}

/// Relies on std's subtraction of two doubles; the carriers only rebuild the
/// operands from their bit patterns.
#[verifier::external_body]
pub(crate) fn dbl_sub(a: u64, b: u64) -> (r: u64)
    ensures
        r == dbl_sub_bits(a, b),
{
    let p = num::complex::Complex64::new(bytemuck::cast(a), bytemuck::cast(b));
    (p.re - p.im).to_bits()
}

/// Relies on std's multiplication of two doubles; the carriers only rebuild
/// the operands from their bit patterns.
#[verifier::external_body]
pub(crate) fn dbl_mul(a: u64, b: u64) -> (r: u64)
    ensures
        r == dbl_mul_bits(a, b),
{
    let p = num::complex::Complex64::new(bytemuck::cast(a), bytemuck::cast(b));
    (p.re * p.im).to_bits()
}

/// Relies on std's division of two doubles; the carriers only rebuild the
/// operands from their bit patterns.
#[verifier::external_body]
pub(crate) fn dbl_div(a: u64, b: u64) -> (r: u64)
    ensures
        r == dbl_div_bits(a, b),
{
    let p = num::complex::Complex64::new(bytemuck::cast(a), bytemuck::cast(b));
    (p.re / p.im).to_bits()
}

/// Relies on libm::log: the natural logarithm of a double, computed in pure
/// Rust, so the result is a function of the operand's bit pattern alone.
#[verifier::external_body]
pub(crate) fn dbl_ln(a: u64) -> (r: u64)
    ensures
        r == dbl_ln_bits(a),
{
    libm::log(bytemuck::cast(a)).to_bits()
}

/// Relies on std's ordered comparison of two doubles; the carriers only
/// rebuild the operands from their bit patterns.
#[verifier::external_body]
pub(crate) fn dbl_gt(a: u64, b: u64) -> (r: bool)
    ensures
        r == dbl_gt_bits(a, b),
{
    let p = num::complex::Complex64::new(bytemuck::cast(a), bytemuck::cast(b));
    p.re > p.im
}

/// Relies on std's lossless conversion of a u32 into a double (`Into`).
#[verifier::external_body]
pub(crate) fn u32_to_dbl(n: u32) -> (r: u64)
    ensures
        r == u32_to_dbl_bits(n),
{
    let p = num::complex::Complex64::new(n.into(), n.into());
    p.re.to_bits()
}

/// Relies on std's saturating `as`-cast of a double to u32; the carrier only
/// rebuilds the operand from its bit pattern.
#[verifier::external_body]
pub(crate) fn dbl_to_u32(a: u64) -> (r: u32)
    ensures
        r == dbl_to_u32_bits(a),
{
    let p = num::complex::Complex64::new(bytemuck::cast(a), bytemuck::cast(a));
    p.re as u32
}

} // verus!
