use mandelbrot::complex::Complex;
use mandelbrot::mandelbrot::{
    calc_escape_time, pixel_to_point, transform, EncodeError, IntensityPolicy, Mandelbrot, LIMIT,
};

fn c(re: f64, im: f64) -> Complex {
    Complex::new(re.to_bits(), im.to_bits())
}

fn viewport() -> (Complex, Complex) {
    (c(-2.0, 1.0), c(1.0, -1.0))
}

#[test]
fn p6_end_to_end_scenario() {
    let bounds = (100usize, 100usize);
    let m = Mandelbrot::new(bounds, viewport());
    let out = m.render2(vec![0u8; 100 * 100]);
    assert_eq!(out.len(), 10000);
    // Pixel (0, 0) maps exactly onto the upper-left corner.
    let p = pixel_to_point(bounds, viewport(), (0, 0));
    assert_eq!(p, c(-2.0, 1.0));
}

#[test]
fn p1_mapped_points_stay_in_viewport() {
    let bounds = (100usize, 100usize);
    let (ul, lr) = viewport();
    let (ul_re, ul_im) = (f64::from_bits(ul.re_bits), f64::from_bits(ul.im_bits));
    let (lr_re, lr_im) = (f64::from_bits(lr.re_bits), f64::from_bits(lr.im_bits));
    for &x in &[0usize, 1, 17, 50, 99] {
        for &y in &[0usize, 1, 17, 50, 99] {
            let p = pixel_to_point(bounds, viewport(), (x, y));
            let re = f64::from_bits(p.re_bits);
            let im = f64::from_bits(p.im_bits);
            assert!(ul_re <= re && re <= lr_re, "re out of range at {x},{y}");
            assert!(lr_im <= im && im <= ul_im, "im out of range at {x},{y}");
        }
    }
}

#[test]
fn p2_corner_mapping_and_boundary_convergence() {
    let (ul, lr) = viewport();
    assert_eq!(pixel_to_point((100, 100), viewport(), (0, 0)), ul);
    // With ever finer grids the last column approaches the right edge.
    let w = 1_000_000usize;
    let p = pixel_to_point((w, 100), viewport(), (w - 1, 0));
    let re = f64::from_bits(p.re_bits);
    let lr_re = f64::from_bits(lr.re_bits);
    assert!((lr_re - re).abs() < 1e-4);
}

#[test]
fn p3_escape_origin_bounded_far_point_fast() {
    // The origin lies in the set: the recurrence never escapes.
    assert_eq!(calc_escape_time(c(0.0, 0.0), LIMIT), None);
    // A point far outside the radius-2 disk escapes at the very first step.
    assert_eq!(calc_escape_time(c(5.0, 5.0), LIMIT), Some(0));
}

#[test]
fn escape_time_exact_small_count() {
    // c = 1: z runs 0, 1, 2, 5; the squared norm first passes 8 at step 3,
    // found at index 2.
    assert_eq!(calc_escape_time(c(1.0, 0.0), LIMIT), Some(2));
}

#[test]
fn p4_render_is_deterministic() {
    let m = Mandelbrot::new((64, 48), viewport());
    let first = m.render2(vec![0u8; 64 * 48]);
    let second = m.render2(vec![0u8; 64 * 48]);
    assert_eq!(first, second);
}

#[test]
fn p5_linear_transform_monotonic_concrete() {
    let mut prev = transform(Some(0), LIMIT, IntensityPolicy::Linear);
    assert_eq!(prev, 255);
    for count in 1..LIMIT {
        let cur = transform(Some(count), LIMIT, IntensityPolicy::Linear);
        assert!(cur <= prev, "sample grew at count {count}");
        prev = cur;
    }
    assert_eq!(transform(Some(LIMIT - 1), LIMIT, IntensityPolicy::Linear), 1);
    assert_eq!(transform(None, LIMIT, IntensityPolicy::Linear), 0);
}

#[test]
fn p8_bounded_viewport_renders_all_zero() {
    let vp = (c(-0.001, 0.001), c(0.001, -0.001));
    let m = Mandelbrot::new((8, 8), vp);
    let out = m.render2(vec![0u8; 64]);
    assert!(out.iter().all(|&s| s == 0));
}

#[test]
fn log_transform_matches_reference_curve() {
    for &count in &[0u32, 1, 2, 10, 100, 254] {
        let expected_f = (libm::log((count as f64) + (1.0 / 255.0)) + 5.541264) / 11.08 * 255.0;
        let expected = (expected_f as u32) as u8;
        assert_eq!(
            transform(Some(count), LIMIT, IntensityPolicy::Logarithmic),
            expected,
            "log curve differs at count {count}"
        );
    }
    // A bounded point maps to the darkest sample.
    assert_eq!(transform(None, LIMIT, IntensityPolicy::Logarithmic), 0);
}

#[test]
fn render_row_agrees_with_full_render() {
    let m = Mandelbrot::new((32, 8), viewport());
    let image = m.render2(vec![0u8; 32 * 8]);
    for row in 0..8usize {
        let rowbuf = m.render_row(row);
        assert_eq!(&image[row * 32..(row + 1) * 32], rowbuf.as_slice());
    }
}

#[test]
fn write_image_matches_direct_png_encoding() {
    let m = Mandelbrot::new((2, 2), viewport());
    let gray = vec![10u8, 20, 30, 40];
    let bytes = m.write_image(&gray).unwrap();

    let mut rgb = vec![0u8; 12];
    for i in 0..4 {
        rgb[3 * i] = gray[i];
    }
    let mut expected: Vec<u8> = Vec::new();
    let encoder = image::codecs::png::PngEncoder::new(&mut expected);
    image::ImageEncoder::write_image(encoder, &rgb, 2, 2, image::ColorType::Rgb8).unwrap();
    assert_eq!(bytes, expected);
}

#[test]
fn write_image_rejects_empty_dimensions() {
    let m = Mandelbrot::new((0, 0), viewport());
    assert_eq!(m.write_image(&Vec::new()), Err(EncodeError::Rejected));
}

#[test]
fn rendered_image_is_not_the_input_buffer() {
    // The buffer's prior contents do not leak into the output: rendering over
    // a poisoned buffer equals rendering over zeros.
    let m = Mandelbrot::new((16, 16), viewport());
    let a = m.render2(vec![0u8; 256]);
    let b = m.render2(vec![0xABu8; 256]);
    assert_eq!(a, b);
    // And the picture is not trivial: the viewport crosses the set boundary.
    assert!(a.iter().any(|&s| s != 0));
}
