use mandelbrot::complex::{parse_complex, Complex, ComplexParseError, Parser};

#[test]
fn test_parse_complex() {
    // (input, want_err, expected)
    let tests: Vec<(&str, bool, Option<Complex>)> = vec![
        (
            "3.14+2.718i",
            false,
            Some(Complex::new(3.14f64.to_bits(), 2.718f64.to_bits())),
        ),
        (
            "2.718i",
            false,
            Some(Complex::new(0.0f64.to_bits(), 2.718f64.to_bits())),
        ),
        (
            "3.14",
            false,
            Some(Complex::new(3.14f64.to_bits(), 0.0f64.to_bits())),
        ),
        ("i", true, None),
    ];
    for (input, want_err, expect) in tests {
        let res = parse_complex(input);
        assert_eq!(want_err, res.is_err());
        if let Ok(c) = res {
            assert_eq!(expect.unwrap(), c);
        }
    }
}

#[test]
fn parse_viewport_corner_strings() {
    let ul = parse_complex("-2+1i").unwrap();
    assert_eq!(ul, Complex::new((-2.0f64).to_bits(), 1.0f64.to_bits()));
    let lr = parse_complex("1-1i").unwrap();
    assert_eq!(lr, Complex::new(1.0f64.to_bits(), (-1.0f64).to_bits()));
}

#[test]
fn parse_rejects_bare_units_and_garbage() {
    assert_eq!(parse_complex("i"), Err(ComplexParseError::Unrecognized));
    assert_eq!(parse_complex("j"), Err(ComplexParseError::Unrecognized));
    assert_eq!(parse_complex("1+i"), Err(ComplexParseError::Unrecognized));
    assert_eq!(parse_complex("hello"), Err(ComplexParseError::Unrecognized));
    assert_eq!(parse_complex(""), Err(ComplexParseError::Unrecognized));
}

#[test]
fn regex_parser_matches_but_unit_sticks_to_the_capture() {
    // The imaginary capture keeps its trailing unit, which no double grammar
    // accepts, so a matching string still reports a bad imaginary part.
    assert_eq!(
        <&str as Parser>::parse("3.14+2.718i"),
        Err(ComplexParseError::BadImaginary)
    );
    // A string the pattern cannot match at all.
    assert_eq!(
        <&str as Parser>::parse("xyz"),
        Err(ComplexParseError::Unrecognized)
    );
    // Missing decimal digits: the pattern demands both parts in a.b form.
    assert_eq!(
        <&str as Parser>::parse("3+2i"),
        Err(ComplexParseError::Unrecognized)
    );
}
