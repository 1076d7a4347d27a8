use imgpipe::processor::ImageParams;
use imgpipe::processor::ImageType;
use imgpipe::resize::plan_resize;

#[test]
fn quality_saturates_to_100() {
    let p = ImageParams::new(Some(150), None, None, None);
    assert_eq!(p.quality, 100);
}

#[test]
fn quality_defaults_to_85() {
    let p = ImageParams::new(None, None, None, None);
    assert_eq!(p.quality, 85);
    assert_eq!(p.max_width, None);
    assert_eq!(p.max_height, None);
    assert_eq!(p.format, None);
}

#[test]
fn quality_within_bounds_kept() {
    let p = ImageParams::new(Some(0), None, None, Some(ImageType::WebP));
    assert_eq!(p.quality, 0);
    assert_eq!(p.format, Some(ImageType::WebP));
}

#[test]
fn dimension_bounds_clamped() {
    let p = ImageParams::new(None, Some(5000), Some(0), None);
    assert_eq!(p.max_width, Some(4096));
    assert_eq!(p.max_height, Some(1));
    let q = ImageParams::new(None, Some(4096), Some(1234), None);
    assert_eq!(q.max_width, Some(4096));
    assert_eq!(q.max_height, Some(1234));
}

#[test]
fn plan_shrinks_wide_image() {
    // ratio = min(4096/5000, 4096/3000) = 0.8192;
    // 3000 * 0.8192 = 2457.6, rounded half up to 2458
    let (w, h) = plan_resize(5000, 3000, 4096, 4096);
    assert_eq!((w, h), (4096, 2458));
}

#[test]
fn plan_shrinks_tall_image() {
    let (w, h) = plan_resize(3000, 5000, 4096, 4096);
    assert_eq!((w, h), (2458, 4096));
}

#[test]
fn plan_keeps_fitting_image() {
    assert_eq!(plan_resize(4096, 4096, 4096, 4096), (4096, 4096));
    assert_eq!(plan_resize(1, 1, 4096, 4096), (1, 1));
    assert_eq!(plan_resize(640, 480, 1000, 1000), (640, 480));
}

#[test]
fn plan_preserves_aspect_within_rounding() {
    let cases = [
        (5000u32, 3000u32, 4096u32, 4096u32),
        (10_000, 101, 4096, 4096),
        (101, 10_000, 333, 777),
        (8191, 8191, 100, 99),
        (4097, 4096, 4096, 4096),
    ];
    for (w, h, mw, mh) in cases {
        let (nw, nh) = plan_resize(w, h, mw, mh);
        let cross = (i64::from(nw) * i64::from(h) - i64::from(nh) * i64::from(w)).abs();
        let larger = i64::from(w.max(h));
        assert!(2 * cross <= larger, "aspect drifted for {w}x{h} under {mw}x{mh}");
        assert!(nw <= w && nh <= h, "upscaled {w}x{h}");
        assert!(nw <= mw && nh <= mh, "bounds exceeded for {w}x{h}");
    }
}

#[test]
fn plan_rounds_halves_up() {
    // the scaled height lands exactly on 1.5 and rounds up
    let (w, h) = plan_resize(2, 3, 1, 4096);
    assert_eq!((w, h), (1, 2));
}

#[test]
fn plan_never_upscales_single_axis() {
    // only the height exceeds its bound; both dimensions shrink by its ratio
    let (w, h) = plan_resize(100, 200, 4096, 100);
    assert_eq!((w, h), (50, 100));
}
