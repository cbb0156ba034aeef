use fractal::arith;
use fractal::view::{pixel_offset, zoom_scale, Canvas};

#[test]
fn centre_pixel_has_zero_offsets() {
    for &(w, h) in &[(1u32, 1u32), (2, 2), (3, 3), (640, 480), (7, 10), (u32::MAX, u32::MAX)] {
        let canvas = Canvas::new(w, h);
        let (cx, cy) = canvas.center_pixel();
        assert_eq!(canvas.offsets(cx, cy), (0, 0));
    }
}

#[test]
fn offsets_left_and_above_centre_are_negative() {
    assert_eq!(pixel_offset(0, 640), -320);
    assert_eq!(pixel_offset(0, u32::MAX), -(i64::from(u32::MAX / 2)));
    assert_eq!(pixel_offset(639, 640), 319);
}

#[test]
fn offsets_symmetric_about_centre() {
    for &size in &[3u32, 4, 5, 640, 1001] {
        let c = size / 2;
        let mut k = 0u32;
        while k <= c && c + k < size {
            let before = pixel_offset(c - k, size);
            let after = pixel_offset(c + k, size);
            assert_eq!(before, -after);
            assert_eq!(after, i64::from(k));
            k += 1;
        }
    }
}

#[test]
fn three_by_three_scenario_offsets() {
    let canvas = Canvas::new(3, 3);
    assert_eq!(canvas.offsets(1, 1), (0, 0));
    assert_eq!(canvas.offsets(0, 0), (-1, -1));
    assert_eq!(canvas.offsets(2, 0), (1, -1));
    assert_eq!(zoom_scale(0), 1);
}

#[test]
fn zoom_scale_is_power_of_two() {
    assert_eq!(zoom_scale(0), 1);
    assert_eq!(zoom_scale(1), 2);
    assert_eq!(zoom_scale(10), 1024);
    assert_eq!(zoom_scale(63), 1u64 << 63);
}

#[test]
fn add_sums() {
    assert_eq!(arith::add(2, 3), 5);
    assert_eq!(arith::add(u64::MAX - 1, 1), u64::MAX);
}
