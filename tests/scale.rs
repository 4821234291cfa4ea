use rvu::scale::{calc_scale, fit_to_screen, overall_scale, screen_capacity, PixelSize};

#[test]
fn fits_without_reduction() {
    assert_eq!(calc_scale(1000, 999), 1);
    assert_eq!(calc_scale(2, 1), 1);
    assert_eq!(calc_scale(u32::MAX, 0), 1);
}

#[test]
fn equal_sizes_need_no_reduction() {
    assert_eq!(calc_scale(1000, 1000), 1);
}

#[test]
fn rounds_up_to_next_factor() {
    assert_eq!(calc_scale(900, 2000), 3);
}

#[test]
fn one_pixel_over_doubles() {
    assert_eq!(calc_scale(900, 901), 2);
}

#[test]
fn exact_multiple_is_not_rounded_up() {
    assert_eq!(calc_scale(900, 1800), 2);
    assert_eq!(calc_scale(900, 1801), 3);
}

#[test]
fn factor_is_minimal() {
    for &(max, cur) in &[(900u32, 2000u32), (900, 901), (1, 7), (3, 3), (7, 100), (1000, 1000)] {
        let f = calc_scale(max, cur);
        assert!(cur as u64 <= f as u64 * max as u64);
        if f > 1 {
            assert!(cur as u64 > (f as u64 - 1) * max as u64);
        }
    }
}

#[test]
fn largest_sizes() {
    assert_eq!(calc_scale(1, u32::MAX), u32::MAX);
    assert_eq!(calc_scale(2, u32::MAX), u32::MAX / 2 + 1);
    assert_eq!(calc_scale(u32::MAX, u32::MAX), 1);
}

#[test]
fn capacity_is_ninety_percent() {
    assert_eq!(screen_capacity(1920), 1728);
    assert_eq!(screen_capacity(1080), 972);
    assert_eq!(screen_capacity(1), 0);
    assert_eq!(screen_capacity(u32::MAX), 3865470565);
}

#[test]
fn overall_is_larger_axis_factor() {
    let max = PixelSize { width: 900, height: 900 };
    assert_eq!(overall_scale(max, PixelSize { width: 2000, height: 500 }), 3);
    assert_eq!(overall_scale(max, PixelSize { width: 500, height: 901 }), 2);
    assert_eq!(overall_scale(max, PixelSize { width: 100, height: 100 }), 1);
    let h = calc_scale(900, 2000);
    let v = calc_scale(900, 3000);
    assert_eq!(overall_scale(max, PixelSize { width: 2000, height: 3000 }), h.max(v));
}

#[test]
fn window_fits_screen() {
    let screen = PixelSize { width: 1000, height: 1000 };
    assert_eq!(
        fit_to_screen(screen, PixelSize { width: 2000, height: 500 }),
        Some(PixelSize { width: 666, height: 166 })
    );
    assert_eq!(
        fit_to_screen(screen, PixelSize { width: 640, height: 480 }),
        Some(PixelSize { width: 640, height: 480 })
    );
}

#[test]
fn empty_screen_has_no_fit() {
    assert_eq!(fit_to_screen(PixelSize { width: 0, height: 1080 }, PixelSize { width: 10, height: 10 }), None);
    assert_eq!(fit_to_screen(PixelSize { width: 1920, height: 1 }, PixelSize { width: 10, height: 10 }), None);
}
