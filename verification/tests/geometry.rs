use browser_chrome::{Bounds, HostWindowMetrics, Scale};

fn metrics(width: u32, height: u32, num: u32, den: u32, chrome_offset: u32) -> HostWindowMetrics {
    HostWindowMetrics { width, height, scale: Scale { num, den }, chrome_offset }
}

#[test]
fn bounds_at_scale_one() {
    assert_eq!(
        metrics(800, 600, 1, 1, 40).bounds(),
        Some(Bounds { x: 0, y: 40, width: 800, height: 560, unit: 1 })
    );
}

#[test]
fn bounds_at_scale_two() {
    // (0, 40), 400 wide, 260 high: each over the unit 2.
    assert_eq!(
        metrics(800, 600, 2, 1, 40).bounds(),
        Some(Bounds { x: 0, y: 80, width: 800, height: 520, unit: 2 })
    );
}

#[test]
fn bounds_at_a_fractional_scale() {
    // Scale 3/2: (0, 40), 1600/3 wide, 1080/3 = 360 high.
    assert_eq!(
        metrics(800, 600, 3, 2, 40).bounds(),
        Some(Bounds { x: 0, y: 120, width: 1600, height: 1080, unit: 3 })
    );
}

#[test]
fn bounds_as_quotients_match_the_formula() {
    for (w, h, num, den, c) in [(1001u32, 777u32, 5u32, 4u32, 40u32), (1920, 1080, 2, 1, 0), (1, 1, 1, 3, 7)] {
        let b = metrics(w, h, num, den, c).bounds().unwrap();
        let scale = num as f64 / den as f64;
        let unit = b.unit as f64;
        assert_eq!(b.x as f64 / unit, 0.0);
        assert_eq!(b.y as f64 / unit, c as f64);
        assert!((b.width as f64 / unit - w as f64 / scale).abs() < 1e-9);
        assert!((b.height as f64 / unit - (h as f64 / scale - c as f64)).abs() < 1e-9);
    }
}

#[test]
fn height_is_negative_where_the_chrome_is_higher_than_the_window() {
    assert_eq!(
        metrics(100, 30, 1, 1, 40).bounds(),
        Some(Bounds { x: 0, y: 40, width: 100, height: -10, unit: 1 })
    );
}

#[test]
fn bounds_of_the_largest_window_do_not_overflow() {
    let b = metrics(u32::MAX, u32::MAX, u32::MAX, u32::MAX, u32::MAX).bounds().unwrap();
    let m = u32::MAX as i128;
    assert_eq!(b, Bounds { x: 0, y: m * m, width: m * m, height: 0, unit: u32::MAX });
    let b = metrics(0, 0, u32::MAX, 1, u32::MAX).bounds().unwrap();
    assert_eq!(b.height, -(m * m));
}

#[test]
fn no_bounds_without_a_positive_scale() {
    assert_eq!(metrics(800, 600, 0, 1, 40).bounds(), None);
    assert_eq!(metrics(800, 600, 1, 0, 40).bounds(), None);
    assert_eq!(metrics(800, 600, 0, 0, 40).bounds(), None);
}

#[test]
fn bounds_of_an_empty_window() {
    assert_eq!(
        metrics(0, 0, 1, 1, 40).bounds(),
        Some(Bounds { x: 0, y: 40, width: 0, height: -40, unit: 1 })
    );
}

#[test]
fn degenerate_metrics() {
    assert!(metrics(0, 600, 1, 1, 40).is_degenerate());
    assert!(metrics(800, 0, 1, 1, 40).is_degenerate());
    assert!(metrics(800, 600, 0, 1, 40).is_degenerate());
    assert!(metrics(800, 600, 1, 0, 40).is_degenerate());
    assert!(!metrics(800, 600, 1, 1, 40).is_degenerate());
    assert!(!metrics(1, 1, 1, 1, 0).is_degenerate());
}

#[test]
fn scale_validity() {
    assert!(Scale { num: 1, den: 1 }.is_valid());
    assert!(Scale { num: 5, den: 4 }.is_valid());
    assert!(!Scale { num: 0, den: 4 }.is_valid());
    assert!(!Scale { num: 4, den: 0 }.is_valid());
}
