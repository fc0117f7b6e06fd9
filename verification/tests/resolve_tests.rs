use rust_droid::error::DroidError;
use rust_droid::geometry::{Point, RelativeRect};
use rust_droid::resolve::{resolve_image_target, resolve_point_target};

/// Encodes a grayscale image, given per-pixel luma values, as a PNG byte
/// stream, the way a device frame or an on-disk needle arrives.
fn png_bytes(w: u32, h: u32, f: impl Fn(u32, u32) -> u8) -> Vec<u8> {
    let mut img = image::GrayImage::new(w, h);
    for y in 0..h {
        for x in 0..w {
            img.put_pixel(x, y, image::Luma([f(x, y)]));
        }
    }
    let mut bytes: Vec<u8> = Vec::new();
    image::DynamicImage::ImageLuma8(img)
        .write_to(&mut std::io::Cursor::new(&mut bytes), image::ImageFormat::Png)
        .unwrap();
    bytes
}

fn noise(x: u32, y: u32) -> u8 {
    ((x.wrapping_mul(37).wrapping_add(y.wrapping_mul(23)).wrapping_add(11)) % 249) as u8
}

/// A 1000x800 screen with a distinctive 40x40 needle pasted at (100, 50).
fn screen_and_needle() -> (Vec<u8>, Vec<u8>) {
    let needle_pixel = |x: u32, y: u32| (30 + x * 3 + y * 2) as u8;
    let frame = png_bytes(1000, 800, |x, y| {
        if (100..140).contains(&x) && (50..90).contains(&y) {
            needle_pixel(x - 100, y - 50)
        } else {
            noise(x, y)
        }
    });
    let needle = png_bytes(40, 40, needle_pixel);
    (frame, needle)
}

#[test]
fn present_needle_resolves_to_its_center() {
    let (frame, needle) = screen_and_needle();
    let p = resolve_image_target(&needle, "needle.png", &frame, 800_000, None).unwrap();
    assert_eq!(p, Point { x: 120, y: 70 });
}

#[test]
fn garbage_needle_bytes_are_a_decode_error() {
    let (frame, _) = screen_and_needle();
    let garbage = vec![1u8, 2, 3, 4, 5];
    let r = resolve_image_target(&garbage, "broken.png", &frame, 800_000, None);
    assert!(matches!(r, Err(DroidError::ImageError(_))));
}

#[test]
fn garbage_frame_bytes_are_a_decode_error() {
    let (_, needle) = screen_and_needle();
    let garbage = vec![9u8; 16];
    let r = resolve_image_target(&needle, "needle.png", &garbage, 800_000, None);
    assert!(matches!(r, Err(DroidError::ImageError(_))));
}

#[test]
fn relative_region_including_the_needle_matches() {
    let (frame, needle) = screen_and_needle();
    // The left-top quarter of the 1000x800 screen: (0,0)-(500,400).
    let region = RelativeRect::new(0, 0, 500_000, 500_000);
    let p =
        resolve_image_target(&needle, "needle.png", &frame, 999_000, Some(region)).unwrap();
    assert_eq!(p, Point { x: 120, y: 70 });
}

#[test]
fn relative_region_excluding_the_needle_is_not_found() {
    let (frame, needle) = screen_and_needle();
    // The right half of the screen: x in (500, 1000); the needle is on the left.
    // Plain normalized cross-correlation scores any smooth region of
    // positive pixels fairly high, so discriminate with a near-perfect
    // threshold; the exact copy still scores a full 1.0.
    let region = RelativeRect::new(500_000, 0, 500_000, 1_000_000);
    let r = resolve_image_target(&needle, "needle.png", &frame, 999_000, Some(region));
    assert_eq!(r, Err(DroidError::ImageNotFound(String::from("needle.png"))));
}

#[test]
fn needle_larger_than_the_screen_is_invalid() {
    let frame = png_bytes(10, 10, noise);
    let needle = png_bytes(20, 20, noise);
    let r = resolve_image_target(&needle, "needle.png", &frame, 0, None);
    assert!(matches!(r, Err(DroidError::InvalidTarget(_))));
}

#[test]
fn point_targets_resolve_to_themselves() {
    let p = Point { x: 42, y: 77 };
    assert_eq!(resolve_point_target(p, None), p);
    let region = RelativeRect::new(0, 0, 100_000, 100_000);
    // A search region is ignored for point targets.
    assert_eq!(resolve_point_target(p, Some(region)), p);
}
