//! Complex-plane points and their arithmetic. A point holds the IEEE-754 bit
//! patterns of its two coordinates; the arithmetic itself is done by num's
//! `Complex64` behind trusted wrappers, and the results are named so that the
//! escape-time contracts can speak about them exactly.

use vstd::prelude::*;
use vstd::string::StringSliceAdditionalSpecFns;

verus! {

/// A point of the complex plane. Each coordinate is the bit pattern of an
/// IEEE-754 double.
#[derive(Clone, Copy, PartialEq, Eq, Structural, Debug)]
pub struct Complex {
    pub re_bits: u64,
    pub im_bits: u64,
}

impl Complex {
    pub fn new(re_bits: u64, im_bits: u64) -> (r: Complex)
        ensures
            r == (Complex { re_bits, im_bits }),
    {
        Complex { re_bits, im_bits }
    }
}

/// Bit patterns of the product of two complex numbers, as num computes it.
pub uninterp spec fn complex_mul_bits(ar: u64, ai: u64, br: u64, bi: u64) -> (u64, u64);

/// Bit patterns of the sum of two complex numbers, as num computes it.
pub uninterp spec fn complex_add_bits(ar: u64, ai: u64, br: u64, bi: u64) -> (u64, u64);

/// Bit pattern of the squared norm of a complex number, as num computes it.
pub uninterp spec fn complex_norm_sqr_bits(ar: u64, ai: u64) -> u64;

/// The product of two complex points.
pub open spec fn spec_complex_mul(a: Complex, b: Complex) -> Complex {
    let p = complex_mul_bits(a.re_bits, a.im_bits, b.re_bits, b.im_bits);
    Complex { re_bits: p.0, im_bits: p.1 }
}

/// The sum of two complex points.
pub open spec fn spec_complex_add(a: Complex, b: Complex) -> Complex {
    let p = complex_add_bits(a.re_bits, a.im_bits, b.re_bits, b.im_bits);
    Complex { re_bits: p.0, im_bits: p.1 }
}

/// Relies on num's multiplication of two `Complex64` values; `bytemuck::cast`
/// only rebuilds the coordinates from their bit patterns.
#[verifier::external_body]
pub(crate) fn complex_mul(a: Complex, b: Complex) -> (r: Complex)
    ensures
        (r.re_bits, r.im_bits) == complex_mul_bits(a.re_bits, a.im_bits, b.re_bits, b.im_bits),
        r == spec_complex_mul(a, b),
{
    let x = num::complex::Complex64::new(bytemuck::cast(a.re_bits), bytemuck::cast(a.im_bits));
    let y = num::complex::Complex64::new(bytemuck::cast(b.re_bits), bytemuck::cast(b.im_bits));
    let z = x * y;
    Complex { re_bits: z.re.to_bits(), im_bits: z.im.to_bits() }
}

/// Relies on num's addition of two `Complex64` values; `bytemuck::cast`
/// only rebuilds the coordinates from their bit patterns.
#[verifier::external_body]
pub(crate) fn complex_add(a: Complex, b: Complex) -> (r: Complex)
    ensures
        (r.re_bits, r.im_bits) == complex_add_bits(a.re_bits, a.im_bits, b.re_bits, b.im_bits),
        r == spec_complex_add(a, b),
{
    let x = num::complex::Complex64::new(bytemuck::cast(a.re_bits), bytemuck::cast(a.im_bits));
    let y = num::complex::Complex64::new(bytemuck::cast(b.re_bits), bytemuck::cast(b.im_bits));
    let z = x + y;
    Complex { re_bits: z.re.to_bits(), im_bits: z.im.to_bits() }
}

/// Relies on num's `Complex64::norm_sqr`; `bytemuck::cast` only rebuilds the
/// coordinates from their bit patterns.
#[verifier::external_body]
pub(crate) fn complex_norm_sqr(a: Complex) -> (r: u64)
    ensures
        r == complex_norm_sqr_bits(a.re_bits, a.im_bits),
{
    let x = num::complex::Complex64::new(bytemuck::cast(a.re_bits), bytemuck::cast(a.im_bits));
    x.norm_sqr().to_bits()
}

/// Why a string was rejected as the textual form of a complex point.
#[derive(Clone, Copy, PartialEq, Eq, Structural, Debug)]
pub enum ComplexParseError {
    /// The string matches no recognized complex-number pattern.
    Unrecognized,
    /// The captured real part does not read as a double.
    BadReal,
    /// The captured imaginary part does not read as a double.
    BadImaginary,
}

/// Coordinate bit patterns parsed out of a string (given as its UTF-8 bytes)
/// by num's grammar (`a+bi`, `bi`, or `a`), if it accepts the string.
pub uninterp spec fn complex_parsed_bits(bytes: Seq<u8>) -> Option<(u64, u64)>;

/// Whether position `k` respects the grammar's demand that an imaginary unit
/// (`i` or `j`) directly follow a digit or a decimal point.
pub open spec fn spec_grounded_at(bytes: Seq<u8>, k: int) -> bool {
    (bytes[k] == 105 || bytes[k] == 106) ==> (k > 0 && (48 <= bytes[k - 1] <= 57 || bytes[k - 1]
        == 46))
}

/// Whether every imaginary unit in the string carries an explicit number:
/// a bare `i` or `j` is not a complex point.
pub open spec fn spec_units_grounded(bytes: Seq<u8>) -> bool {
    forall|k: int| 0 <= k < bytes.len() ==> spec_grounded_at(bytes, k)
}

/// Checks that every imaginary unit in the string follows a digit or a
/// decimal point.
fn units_grounded(s: &str) -> (r: bool)
    ensures
        r == spec_units_grounded(s.spec_bytes()),
{
    let bytes = s.as_bytes();
    let n = bytes.len();
    let mut k: usize = 0;
    while k < n
        invariant
            k <= n,
            n == bytes@.len(),
            bytes@ == s.spec_bytes(),
            forall|j: int| 0 <= j < k ==> spec_grounded_at(bytes@, j),
        decreases n - k,
    {
        let c = bytes[k];
        if c == 105 || c == 106 {
            if k == 0 {
                assert(!spec_grounded_at(bytes@, 0));
                return false;
            }
            let p = bytes[k - 1];
            if !((48 <= p && p <= 57) || p == 46) {
                assert(!spec_grounded_at(bytes@, k as int));
                return false;
            }
        }
        k = k + 1;
    }
    true
}

/// What `parse_complex` returns for a string with these UTF-8 bytes.
pub open spec fn spec_parse_complex(bytes: Seq<u8>) -> Result<Complex, ComplexParseError> {
    if !spec_units_grounded(bytes) {
        Err(ComplexParseError::Unrecognized)
    } else {
        match complex_parsed_bits(bytes) {
            Some(p) => Ok(Complex { re_bits: p.0, im_bits: p.1 }),
            None => Err(ComplexParseError::Unrecognized),
        }
    }
}

/// Relies on num's `FromStr` for `Complex64` (grammar `a+bi`, `bi`, or `a`):
/// the outcome depends on the characters alone.
#[verifier::external_body]
fn parse_complex_bits(s: &str) -> (r: Option<(u64, u64)>)
    ensures
        r == complex_parsed_bits(s.spec_bytes()),
{
    match s.parse::<num::complex::Complex64>() {
        Ok(c) => Some((c.re.to_bits(), c.im.to_bits())),
        Err(_) => None,
    }
}

/// Parses the textual form of a complex point — `a+bi`, `bi`, or `a` — into
/// a `Complex`, or reports a configuration error for any other string. The
/// imaginary unit must carry an explicit number: a bare `i` is rejected.
pub fn parse_complex(s: &str) -> (r: Result<Complex, ComplexParseError>)
    ensures
        r == spec_parse_complex(s.spec_bytes()),
{
    if !units_grounded(s) {
        return Err(ComplexParseError::Unrecognized);
    }
    match parse_complex_bits(s) {
        Some(p) => Ok(Complex { re_bits: p.0, im_bits: p.1 }),
        None => Err(ComplexParseError::Unrecognized),
    }
}

/// The two capture groups — the real digits and the imaginary digits with
/// their trailing unit — that the fixed capture pattern finds in a string.
pub uninterp spec fn complex_captures_bits(s: Seq<char>) -> Option<(Seq<char>, Seq<char>)>;

/// The bit pattern of the double that std parses out of a string.
pub uninterp spec fn dbl_parsed_bits(s: Seq<char>) -> Option<u64>;

/// Relies on regex's `Regex::new` and `Regex::captures` with the fixed
/// pattern for `<digits>.<digits>+<digits>.<digits>i`: the two named capture
/// groups depend on the input characters alone. The pattern is a valid
/// expression, so building it cannot fail.
#[verifier::external_body]
fn complex_captures(s: &str) -> (r: Option<(String, String)>)
    ensures
        (r is Some) == (complex_captures_bits(s@) is Some),
        r matches Some(p) ==> complex_captures_bits(s@) matches Some(q) && p.0@ == q.0 && p.1@
            == q.1,
{
    let reg = regex::Regex::new(r#"(?P<real>\d+[.]\d+)[+](?P<im>\d+[.]\d+i)"#).unwrap();
    match reg.captures(s) {
        Some(caps) => match (caps.name("real"), caps.name("im")) {
            (Some(re), Some(im)) => Some((re.as_str().to_owned(), im.as_str().to_owned())),
            _ => None,
        },
        None => None,
    }
}

/// Relies on std's `FromStr` for doubles: the outcome depends on the
/// characters alone.
#[verifier::external_body]
fn parse_dbl_bits(s: &str) -> (r: Option<u64>)
    ensures
        r == dbl_parsed_bits(s@),
{
    match s.parse() {
        Ok(v) => Some(num::complex::Complex64::new(v, v).re.to_bits()),
        Err(_) => None,
    }
}

/// What `Parser::parse` returns: the two captured groups, each read as a
/// double. The imaginary capture keeps its trailing unit, which no double
/// grammar accepts, so a string that the pattern matches still reports its
/// imaginary part as unreadable.
pub open spec fn spec_regex_parse(s: Seq<char>) -> Result<Complex, ComplexParseError> {
    match complex_captures_bits(s) {
        None => Err(ComplexParseError::Unrecognized),
        Some(caps) => match dbl_parsed_bits(caps.0) {
            None => Err(ComplexParseError::BadReal),
            Some(re) => match dbl_parsed_bits(caps.1) {
                None => Err(ComplexParseError::BadImaginary),
                Some(im) => Ok(Complex { re_bits: re, im_bits: im }),
            },
        },
    }
}

/// Converts a textual form into a complex point by the fixed capture
/// pattern.
pub trait Parser {
    /// Parses the `<digits>.<digits>+<digits>.<digits>i` form: captures the
    /// two groups and reads each as a double.
    fn parse(s: &str) -> (r: Result<Complex, ComplexParseError>)
        ensures
            r == spec_regex_parse(s@),
    ;
}

impl Parser for &str {
    fn parse(s: &str) -> (r: Result<Complex, ComplexParseError>) {
        match complex_captures(s) {
            None => Err(ComplexParseError::Unrecognized),
            Some(caps) => match parse_dbl_bits(caps.0.as_str()) {
                None => Err(ComplexParseError::BadReal),
                Some(re_bits) => match parse_dbl_bits(caps.1.as_str()) {
                    None => Err(ComplexParseError::BadImaginary),
                    Some(im_bits) => Ok(Complex { re_bits, im_bits }),
                },
            },
        }
    }
}

} // verus!
