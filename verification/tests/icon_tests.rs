use mandelbrot::escape::escape_iterations;
use mandelbrot::icon::icon_rgba;

const SCALE: i64 = 1_000_000_000_000;

#[test]
fn icon_has_full_rgba_size() {
    let v = icon_rgba();
    assert_eq!(v.len(), 64 * 64 * 4);
}

#[test]
fn icon_is_fully_opaque() {
    let v = icon_rgba();
    for p in 0..(64 * 64) {
        assert_eq!(v[4 * p + 3], 255);
    }
}

#[test]
fn icon_interior_pixel_is_black() {
    let v = icon_rgba();
    // Column 26, row 31 samples (-1.0078125, 0.0234375), inside the
    // period-two bulb: never escapes, rendered black.
    let p = 31 * 64 + 26;
    assert_eq!(v[4 * p], 0);
    assert_eq!(v[4 * p + 1], 0);
    assert_eq!(v[4 * p + 2], 0);
    assert_eq!(v[4 * p + 3], 255);
}

#[test]
fn icon_corner_pixel_escapes_after_one_step() {
    let v = icon_rgba();
    // Pixel (0, 0) samples (-2.2265625, 1.4765625): |c|^2 > 4, so the
    // first squaring escapes and the shade is 1 * 4.
    assert_eq!(v[0], 4);
    assert_eq!(v[1], 4);
    assert_eq!(v[2], 255);
    assert_eq!(v[3], 255);
}

#[test]
fn origin_never_escapes() {
    assert_eq!(escape_iterations(0, 0, 64), 64);
}

#[test]
fn minus_two_stays_on_the_boundary() {
    // z = -2 cycles through 2 forever; |z|^2 never exceeds 4.
    assert_eq!(escape_iterations(-2 * SCALE, 0, 64), 64);
}

#[test]
fn one_plus_i_escapes_in_two_steps() {
    assert_eq!(escape_iterations(SCALE, SCALE, 64), 2);
}

#[test]
fn three_escapes_immediately_after_first_step() {
    assert_eq!(escape_iterations(3 * SCALE, 0, 64), 1);
}

#[test]
fn budget_caps_the_count() {
    assert_eq!(escape_iterations(0, 0, 7), 7);
    assert_eq!(escape_iterations(0, 0, 0), 0);
}
