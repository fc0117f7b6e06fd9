//! Target resolution: mapping an abstract target to a concrete screen
//! point. A point target resolves to itself; an image target is located in
//! a freshly captured screenshot by the template matcher, and the matched
//! rectangle's center is returned.

use vstd::prelude::*;
use crate::error::DroidError;
use crate::frame::GrayFrame;
use crate::geometry::{Point, Rect, RelativeRect};
use crate::vision::{MAX_TEMPLATE_AREA, find_template, score_at, search_region, valid_offset};

verus! {

/// The grayscale decoding of an encoded image byte stream: `None` when the
/// bytes are not a decodable image, otherwise the width, height and
/// row-major luma bytes of the decoded picture. Decoding depends on the
/// bytes alone.
pub uninterp spec fn luma_decoding(bytes: Seq<u8>) -> Option<(u32, u32, Seq<u8>)>;

/// Relies on `image::load_from_memory` to decode the byte stream,
/// `image::DynamicImage::to_luma8` for the grayscale conversion, and
/// `image::ImageBuffer::{width, height, into_raw}` to take the result
/// apart; the buffer of a decoded image holds exactly `width * height`
/// luma bytes. The decoded pixels are a function of the byte stream alone.
#[verifier::external_body]
fn decode_luma(bytes: &Vec<u8>) -> (r: Result<GrayFrame, String>)
    ensures
        match r {
            Ok(f) => luma_decoding(bytes@) == Some((f.width, f.height, f.data@)) && f.wf(),
            Err(_) => luma_decoding(bytes@) is None,
        },
{
    match image::load_from_memory(bytes.as_slice()) {
        Ok(img) => {
            let g = img.to_luma8();
            let width = g.width();
            let height = g.height();
            Ok(GrayFrame { width, height, data: g.into_raw() })
        },
        Err(e) => Err(e.to_string()),
    }
}

/// Resolves a point target: the point itself, unchanged. A search region,
/// if one was supplied, is ignored for point targets.
pub fn resolve_point_target(p: Point, search: Option<RelativeRect>) -> (r: Point)
    ensures
        r == p,
{
    let _ = search;
    p
}

/// Resolves an image target inside a captured frame.
///
/// Decodes the needle (template) and the frame (screenshot) from their
/// encoded bytes, converts the optional relative search region to absolute
/// pixels using the frame's actual dimensions, runs the template matcher
/// and returns the center of the matched rectangle.
///
/// Decode failures surface as `ImageError`; a needle that is empty, does
/// not fit the searched region or exceeds the admitted area surfaces as
/// `InvalidTarget`; a best score below the threshold surfaces as
/// `ImageNotFound` carrying the needle's path.
pub fn resolve_image_target(
    needle_bytes: &Vec<u8>,
    needle_path: &str,
    frame_bytes: &Vec<u8>,
    threshold: u32,
    search: Option<RelativeRect>,
) -> (r: Result<Point, DroidError>)
    requires
        match search {
            Some(rr) => rr.wf(),
            None => true,
        },
    ensures
        ({
            let nf = luma_decoding(needle_bytes@);
            let ff = luma_decoding(frame_bytes@);
            let nt = nf->Some_0;
            let ft = ff->Some_0;
            let nw = nt.0 as int;
            let nh = nt.1 as int;
            let nd = nt.2;
            let fw = ft.0 as int;
            let fh = ft.1 as int;
            let fd = ft.2;
            let abs_search = match search {
                Some(rr) => Some(rr.to_absolute_spec(fw, fh)),
                None => None,
            };
            let reg = search_region(fw, fh, abs_search);
            let fits = 1 <= nw <= reg.2 && 1 <= nh <= reg.3;
            match r {
                Ok(p) => {
                    &&& nf is Some
                    &&& ff is Some
                    &&& nw * nh <= MAX_TEMPLATE_AREA
                    &&& fits
                    &&& exists|bx: int, by: int|
                        {
                            &&& valid_offset(reg, nw, nh, bx, by)
                            &&& #[trigger] score_at(fw, fd, nw, nh, nd, bx, by) >= threshold
                            &&& forall|x: int, y: int|
                                valid_offset(reg, nw, nh, x, y) ==> score_at(
                                    fw,
                                    fd,
                                    nw,
                                    nh,
                                    nd,
                                    x,
                                    y,
                                ) <= score_at(fw, fd, nw, nh, nd, bx, by)
                            &&& p.x == bx + nw / 2
                            &&& p.y == by + nh / 2
                        }
                },
                Err(e) => match e {
                    DroidError::ImageError(_) => nf is None || ff is None,
                    DroidError::InvalidTarget(_) => {
                        &&& nf is Some
                        &&& ff is Some
                        &&& (nw * nh > MAX_TEMPLATE_AREA || !fits)
                    },
                    DroidError::ImageNotFound(p) => {
                        &&& nf is Some
                        &&& ff is Some
                        &&& nw * nh <= MAX_TEMPLATE_AREA
                        &&& fits
                        &&& p@ == needle_path@
                        &&& forall|x: int, y: int|
                            valid_offset(reg, nw, nh, x, y) ==> score_at(fw, fd, nw, nh, nd, x, y)
                                < threshold
                    },
                    _ => false,
                },
            }
        }),
{
    let needle: GrayFrame = match decode_luma(needle_bytes) {
        Ok(f) => f,
        Err(msg) => {
            return Err(DroidError::ImageError(msg));
        },
    };
    let frame: GrayFrame = match decode_luma(frame_bytes) {
        Ok(f) => f,
        Err(msg) => {
            return Err(DroidError::ImageError(msg));
        },
    };

    proof {
        assert((needle.width as int) * (needle.height as int) <= u32::MAX as int * u32::MAX as int)
            by (nonlinear_arith)
            requires needle.width <= u32::MAX, needle.height <= u32::MAX;
    }
    let area: u64 = (needle.width as u64) * (needle.height as u64);
    if area > MAX_TEMPLATE_AREA {
        return Err(DroidError::InvalidTarget(String::from_str(
            "the template exceeds the admitted area",
        )));
    }

    let abs_search: Option<Rect> = match &search {
        Some(rr) => Some(rr.to_absolute(frame.width, frame.height)),
        None => None,
    };

    match find_template(&frame, &needle, threshold, needle_path, abs_search) {
        Ok(m) => {
            proof {
                assert(m.rect.x + m.rect.width / 2 <= u32::MAX);
                assert(m.rect.y + m.rect.height / 2 <= u32::MAX);
            }
            let p = m.rect.center();
            proof {
                let ft = luma_decoding(frame_bytes@)->Some_0;
                let nt = luma_decoding(needle_bytes@)->Some_0;
                let reg = search_region(
                    ft.0 as int,
                    ft.1 as int,
                    match search {
                        Some(rr) => Some(rr.to_absolute_spec(ft.0 as int, ft.1 as int)),
                        None => None,
                    },
                );
                assert(valid_offset(
                    reg,
                    nt.0 as int,
                    nt.1 as int,
                    m.rect.x as int,
                    m.rect.y as int,
                ));
                assert(score_at(
                    ft.0 as int,
                    ft.2,
                    nt.0 as int,
                    nt.1 as int,
                    nt.2,
                    m.rect.x as int,
                    m.rect.y as int,
                ) >= threshold);
            }
            Ok(p)
        },
        Err(e) => Err(e),
    }
}

} // verus!
