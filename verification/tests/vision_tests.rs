use rust_droid::error::DroidError;
use rust_droid::frame::GrayFrame;
use rust_droid::geometry::{FRACTION_SCALE, Rect};
use rust_droid::vision::find_template;

/// A deterministic pseudo-random byte for pixel (x, y), avoiding any real
/// randomness so the test is reproducible.
fn noise(x: u32, y: u32) -> u8 {
    ((x.wrapping_mul(31).wrapping_add(y.wrapping_mul(17)).wrapping_add(7)) % 251) as u8
}

fn frame_from_fn(w: u32, h: u32, f: impl Fn(u32, u32) -> u8) -> GrayFrame {
    let mut data = Vec::new();
    for y in 0..h {
        for x in 0..w {
            data.push(f(x, y));
        }
    }
    GrayFrame::new(w, h, data).unwrap()
}

/// A 20x20 haystack of noise with an exact copy of a 4x4 needle pasted at
/// (5, 7).
fn haystack_with_needle() -> (GrayFrame, GrayFrame) {
    let needle = frame_from_fn(4, 4, |x, y| 40 + (x * 4 + y * 16) as u8);
    let hay = frame_from_fn(20, 20, |x, y| {
        if (5..9).contains(&x) && (7..11).contains(&y) {
            40 + ((x - 5) * 4 + (y - 7) * 16) as u8
        } else {
            noise(x, y)
        }
    });
    (hay, needle)
}

#[test]
fn exact_copy_scores_full_confidence() {
    let (hay, needle) = haystack_with_needle();
    let m = find_template(&hay, &needle, 800_000, "needle.png", None).unwrap();
    assert_eq!(m.confidence, FRACTION_SCALE);
    assert_eq!(m.rect, Rect::new(5, 7, 4, 4));
}

#[test]
fn exact_copy_matches_even_at_maximal_threshold() {
    let (hay, needle) = haystack_with_needle();
    let m = find_template(&hay, &needle, FRACTION_SCALE, "needle.png", None).unwrap();
    assert_eq!(m.confidence, FRACTION_SCALE);
}

#[test]
fn absent_needle_is_not_found() {
    let hay = frame_from_fn(20, 20, |x, y| noise(x, y));
    let needle = frame_from_fn(4, 4, |x, y| if (x + y) % 2 == 0 { 255 } else { 0 });
    let r = find_template(&hay, &needle, 990_000, "checker.png", None);
    assert_eq!(r, Err(DroidError::ImageNotFound(String::from("checker.png"))));
}

#[test]
fn region_excluding_needle_is_not_found() {
    let (hay, needle) = haystack_with_needle();
    // The needle sits at (5, 7); search only the top-left 5x5 corner.
    let region = Rect::new(0, 0, 5, 5);
    let r = find_template(&hay, &needle, 999_000, "needle.png", Some(region));
    assert!(matches!(r, Err(DroidError::ImageNotFound(_))));
}

#[test]
fn region_including_needle_matches_like_unrestricted_search() {
    let (hay, needle) = haystack_with_needle();
    let unrestricted = find_template(&hay, &needle, 800_000, "needle.png", None).unwrap();
    let region = Rect::new(4, 6, 10, 10);
    let restricted =
        find_template(&hay, &needle, 800_000, "needle.png", Some(region)).unwrap();
    assert_eq!(restricted.rect, unrestricted.rect);
    assert_eq!(restricted.confidence, unrestricted.confidence);
    assert_eq!(restricted.rect, Rect::new(5, 7, 4, 4));
}

#[test]
fn region_overhanging_the_edge_is_clamped() {
    let (hay, needle) = haystack_with_needle();
    // Overhangs the 20x20 haystack on both axes; clamping keeps it usable.
    let region = Rect::new(3, 3, 1000, 1000);
    let m = find_template(&hay, &needle, 800_000, "needle.png", Some(region)).unwrap();
    assert_eq!(m.rect, Rect::new(5, 7, 4, 4));
}

#[test]
fn needle_larger_than_haystack_is_invalid() {
    let hay = frame_from_fn(3, 3, |x, y| noise(x, y));
    let needle = frame_from_fn(4, 4, |x, y| noise(x, y));
    let r = find_template(&hay, &needle, 0, "big.png", None);
    assert!(matches!(r, Err(DroidError::InvalidTarget(_))));
}

#[test]
fn empty_needle_is_invalid() {
    let hay = frame_from_fn(3, 3, |x, y| noise(x, y));
    let needle = GrayFrame::new(0, 0, Vec::new()).unwrap();
    let r = find_template(&hay, &needle, 0, "empty.png", None);
    assert!(matches!(r, Err(DroidError::InvalidTarget(_))));
}

#[test]
fn frame_rejects_mismatched_buffer() {
    assert!(GrayFrame::new(3, 3, vec![0u8; 8]).is_none());
    assert!(GrayFrame::new(3, 3, vec![0u8; 9]).is_some());
}

#[test]
fn brighter_copy_scores_below_one_but_high() {
    // Same pattern scaled in brightness: normalized correlation stays high,
    // but a dissimilar alignment scores lower than the aligned copy.
    let needle = frame_from_fn(4, 4, |x, y| 10 + (x * 3 + y * 11) as u8);
    let hay = frame_from_fn(12, 12, |x, y| {
        if (2..6).contains(&x) && (3..7).contains(&y) {
            2 * (10 + ((x - 2) * 3 + (y - 3) * 11)) as u8
        } else {
            noise(x, y)
        }
    });
    let m = find_template(&hay, &needle, 900_000, "scaled.png", None).unwrap();
    assert_eq!(m.rect, Rect::new(2, 3, 4, 4));
    assert!(m.confidence > 990_000);
}

#[test]
fn single_pixel_needle_finds_the_only_lit_pixel() {
    // A single-pixel needle correlates fully with any nonzero pixel, so
    // keep the background black: an all-zero window has no direction to
    // correlate with and scores 0, and only the lit pixel matches.
    let hay = frame_from_fn(3, 3, |x, y| if (x, y) == (2, 1) { 51 } else { 0 });
    let needle = frame_from_fn(1, 1, |_, _| 51);
    let m = find_template(&hay, &needle, FRACTION_SCALE, "dot.png", None).unwrap();
    assert_eq!(m.confidence, FRACTION_SCALE);
    assert_eq!(m.rect, Rect::new(2, 1, 1, 1));
}
