use image_transformer::utils::resize_dimensions;
use image_transformer::utils::scaled_height;

#[test]
fn resize_inside_keeps_the_aspect_ratio() {
    assert_eq!(resize_dimensions(200, 100, 100, 100, false), (100, 50));
    assert_eq!(resize_dimensions(100, 200, 100, 100, false), (50, 100));
}

#[test]
fn resize_handles_fill() {
    assert_eq!(resize_dimensions(100, 200, 200, 500, true), (250, 500));
    assert_eq!(resize_dimensions(200, 100, 500, 200, true), (500, 250));
}

#[test]
fn resize_never_rounds_to_zero() {
    assert_eq!(resize_dimensions(1, 150, 128, 128, false), (1, 128));
    assert_eq!(resize_dimensions(150, 1, 128, 128, false), (128, 1));
    assert_eq!(resize_dimensions(1000, 1, 0, 0, false), (1, 1));
}

#[test]
fn resize_handles_overflow() {
    assert_eq!(resize_dimensions(100, u32::MAX, 200, u32::MAX, true), (100, u32::MAX));
    assert_eq!(resize_dimensions(u32::MAX, 100, u32::MAX, 200, true), (u32::MAX, 100));
    assert_eq!(resize_dimensions(2, 1, u32::MAX, u32::MAX, true), (u32::MAX, 2147483648));
}

#[test]
fn resize_rounds_a_half_upwards() {
    assert_eq!(resize_dimensions(200, 101, 100, 1000, false), (100, 51));
    assert_eq!(resize_dimensions(3, 1, 4, 100, false), (4, 1));
    assert_eq!(resize_dimensions(3, 1, 5, 100, false), (5, 2));
}

#[test]
fn resize_of_an_image_without_pixels() {
    assert_eq!(resize_dimensions(0, 0, 10, 10, false), (1, 1));
    assert_eq!(resize_dimensions(0, 0, 10, 10, true), (1, 1));
    assert_eq!(resize_dimensions(0, 5, 10, 20, false), (1, 20));
    assert_eq!(resize_dimensions(0, 5, 10, 20, true), (1, u32::MAX));
    assert_eq!(resize_dimensions(0, 5, 0, 20, true), (1, 20));
    assert_eq!(resize_dimensions(5, 0, 10, 20, false), (10, 1));
    assert_eq!(resize_dimensions(5, 0, 10, 20, true), (u32::MAX, 1));
    assert_eq!(resize_dimensions(5, 0, 10, 0, true), (10, 1));
}

/// The same size in double-precision arithmetic.
fn in_floating_point(width: u32, height: u32, nwidth: u32, nheight: u32, fill: bool) -> (u32, u32) {
    let wratio = f64::from(nwidth) / f64::from(width);
    let hratio = f64::from(nheight) / f64::from(height);
    let ratio = if fill { f64::max(wratio, hratio) } else { f64::min(wratio, hratio) };
    let nw = u64::max((f64::from(width) * ratio).round() as u64, 1);
    let nh = u64::max((f64::from(height) * ratio).round() as u64, 1);
    if nw > u64::from(u32::MAX) {
        let ratio = f64::from(u32::MAX) / f64::from(width);
        (u32::MAX, u32::max((f64::from(height) * ratio).round() as u32, 1))
    } else if nh > u64::from(u32::MAX) {
        let ratio = f64::from(u32::MAX) / f64::from(height);
        (u32::max((f64::from(width) * ratio).round() as u32, 1), u32::MAX)
    } else {
        (nw as u32, nh as u32)
    }
}

#[test]
fn resize_in_exact_arithmetic_is_within_a_pixel_of_floating_point() {
    let mut state = 0x2545_f491_4f6c_dd1du64;
    let mut next = |bits: u32| -> u32 {
        state ^= state << 13;
        state ^= state >> 7;
        state ^= state << 17;
        ((state >> 11) as u32) >> (32 - bits)
    };
    let mut same = 0u32;
    let rounds = 200_000u32;
    for round in 0..rounds {
        let bits = 1 + round % 32;
        let (w, h, nw, nh) = (next(bits), next(bits), next(bits), next(bits));
        for fill in [false, true] {
            let exact = resize_dimensions(w, h, nw, nh, fill);
            let float = in_floating_point(w, h, nw, nh, fill);
            assert!(
                exact.0.abs_diff(float.0) <= 1 && exact.1.abs_diff(float.1) <= 1,
                "{w}x{h} to {nw}x{nh}, fill {fill}: {exact:?} and {float:?}"
            );
            if exact == float {
                same += 1;
            }
        }
    }
    // The two part ways at most where the exact value lies half-way between
    // two pixels.
    assert!(same >= 2 * rounds - rounds / 100, "{same}");
}

#[test]
fn resize_of_small_images_parts_from_floating_point_at_the_half_only() {
    let mut ties = 0;
    for w in 0..24u64 {
        for h in 0..24u64 {
            for nw in 0..24u64 {
                for nh in 0..24u64 {
                    for fill in [false, true] {
                        let exact = resize_dimensions(w as u32, h as u32, nw as u32, nh as u32, fill);
                        let float = in_floating_point(w as u32, h as u32, nw as u32, nh as u32, fill);
                        if exact == float {
                            continue;
                        }
                        // The side that follows lies half-way between two
                        // pixels: here it is rounded up, there it came out
                        // a hair under the half.
                        let by_width = if fill { nw * h >= nh * w } else { nw * h <= nh * w };
                        let (a, b) = if by_width { (h * nw, w) } else { (w * nh, h) };
                        assert!(b > 0 && (2 * a + b) % (2 * b) == 0, "{w}x{h} to {nw}x{nh}, fill {fill}");
                        let (here, there) = if by_width { (exact.1, float.1) } else { (exact.0, float.0) };
                        assert_eq!(here, there + 1);
                        ties += 1;
                    }
                }
            }
        }
    }
    assert!(ties > 0);
}

#[test]
fn the_missing_height_is_within_a_pixel_of_single_precision() {
    let mut same = 0u32;
    let mut all = 0u32;
    for width in (1..4096u32).step_by(7) {
        for raw_width in (1..4096u32).step_by(61) {
            for raw_height in (1..4096u32).step_by(127) {
                let exact = scaled_height(width, raw_width, raw_height);
                let float = ((width as f32 / raw_width as f32) * (raw_height as f32)) as u32;
                assert!(exact.abs_diff(float) <= 1, "{width} of {raw_width}x{raw_height}: {exact} and {float}");
                all += 1;
                if exact == float {
                    same += 1;
                }
            }
        }
    }
    assert!(same >= all - all / 50, "{same} of {all}");
}
