use resvg::tiny_skia::Transform;
use termface::face::{Face, ORI_SVG_HEIGHT, ORI_SVG_WIDTH};
use termface::raster::MAX_TARGET;
use termface::store::{FacePixmapStore, RasterError};

const SQUARE: &str = "<svg xmlns=\"http://www.w3.org/2000/svg\" viewBox=\"0 0 200 120\"><rect x=\"50\" y=\"30\" width=\"100\" height=\"60\" fill=\"#ff0000\"/></svg>";

fn scale(width: u32, height: u32) -> Transform {
    Transform::from_scale(
        width as f32 / ORI_SVG_WIDTH as f32,
        height as f32 / ORI_SVG_HEIGHT as f32,
    )
}

fn visible_pixels(svg: &str, width: u32, height: u32) -> usize {
    let pixmap = FacePixmapStore::get_svg_pixmap(svg, width, height, scale(width, height))
        .expect("the document is valid and the size is not zero");
    pixmap.pixels().iter().filter(|pixel| pixel.alpha() != 0).count()
}

#[test]
fn rasterized_face_has_one_pixel_for_each_target_pixel() {
    let svg = Face::Normal.to_svg();
    let pixmap = FacePixmapStore::get_svg_pixmap(&svg, 40, 40, scale(40, 40)).unwrap();
    assert_eq!(pixmap.width(), 40);
    assert_eq!(pixmap.height(), 40);
    assert_eq!(pixmap.pixels().len(), 1600);
    assert_eq!(pixmap.data().len(), 6400);
}

#[test]
fn pixel_count_is_width_times_height_for_many_sizes() {
    let svg = Face::Angry.to_svg();
    for (width, height) in [(1u32, 1u32), (1, 2), (7, 3), (80, 48), (200, 120), (333, 2)] {
        let pixmap =
            FacePixmapStore::get_svg_pixmap(&svg, width, height, scale(width, height)).unwrap();
        assert_eq!(pixmap.width(), width);
        assert_eq!(pixmap.height(), height);
        assert_eq!(pixmap.pixels().len(), (width * height) as usize);
    }
}

#[test]
fn the_face_is_drawn_into_the_pixels() {
    let svg = Face::Normal.to_svg();
    let pixmap = FacePixmapStore::get_svg_pixmap(&svg, 200, 120, scale(200, 120)).unwrap();
    assert!(pixmap.pixels().iter().any(|pixel| pixel.alpha() != 0));
    assert!(pixmap.pixels().iter().any(|pixel| pixel.alpha() == 0));
}

#[test]
fn the_left_pupil_is_black_and_opaque_at_its_center() {
    let svg = Face::Normal.to_svg();
    let pixmap = FacePixmapStore::get_svg_pixmap(&svg, 200, 120, scale(200, 120)).unwrap();
    let center = pixmap.pixel(65, 60).unwrap();
    assert_eq!((center.red(), center.green(), center.blue(), center.alpha()), (0, 0, 0, 255));
    let corner = pixmap.pixel(0, 0).unwrap();
    assert_eq!(corner.alpha(), 0);
}

#[test]
fn zero_width_cannot_be_allocated() {
    let svg = Face::Normal.to_svg();
    let outcome = FacePixmapStore::get_svg_pixmap(&svg, 0, 40, scale(1, 40));
    assert_eq!(outcome.err(), Some(RasterError::AllocationFailed));
}

#[test]
fn zero_height_cannot_be_allocated() {
    let svg = Face::Normal.to_svg();
    let outcome = FacePixmapStore::get_svg_pixmap(&svg, 40, 0, scale(40, 1));
    assert_eq!(outcome.err(), Some(RasterError::AllocationFailed));
}

#[test]
fn zero_by_zero_cannot_be_allocated() {
    let svg = Face::Normal.to_svg();
    let outcome = FacePixmapStore::get_svg_pixmap(&svg, 0, 0, Transform::identity());
    assert_eq!(outcome.err(), Some(RasterError::AllocationFailed));
}

#[test]
fn a_side_of_zero_cannot_be_allocated_however_long_the_other_is() {
    let svg = Face::Normal.to_svg();
    for (width, height) in [(0u32, u32::MAX), (u32::MAX, 0u32), (0, MAX_TARGET + 1), (MAX_TARGET + 1, 0)] {
        let outcome = FacePixmapStore::get_svg_pixmap(&svg, width, height, Transform::identity());
        assert_eq!(outcome.err(), Some(RasterError::AllocationFailed));
    }
}

#[test]
fn a_row_too_long_to_count_cannot_be_allocated() {
    let svg = Face::Normal.to_svg();
    // Four bytes for each pixel of a row no longer fit an `i32`.
    let width = i32::MAX as u32 / 4 + 1;
    let outcome = FacePixmapStore::get_svg_pixmap(&svg, width, 1, Transform::identity());
    assert_eq!(outcome.err(), Some(RasterError::AllocationFailed));
}

#[test]
fn malformed_document_is_rejected() {
    let outcome = FacePixmapStore::get_svg_pixmap("<svg", 40, 40, scale(40, 40));
    assert_eq!(outcome.err(), Some(RasterError::InvalidDocument));
}

#[test]
fn empty_document_is_rejected() {
    let outcome = FacePixmapStore::get_svg_pixmap("", 40, 40, scale(40, 40));
    assert_eq!(outcome.err(), Some(RasterError::InvalidDocument));
}

#[test]
fn text_that_is_no_markup_is_rejected() {
    let outcome = FacePixmapStore::get_svg_pixmap("a cat", 40, 40, scale(40, 40));
    assert_eq!(outcome.err(), Some(RasterError::InvalidDocument));
}

#[test]
fn malformed_document_is_reported_before_the_size() {
    let outcome = FacePixmapStore::get_svg_pixmap("<svg", 0, 0, Transform::identity());
    assert_eq!(outcome.err(), Some(RasterError::InvalidDocument));
}

#[test]
fn the_largest_target_side_is_a_fifth_of_the_largest_i32() {
    assert_eq!(MAX_TARGET, (i32::MAX / 5) as u32);
}

#[test]
fn doubling_the_target_quadruples_the_visible_area() {
    // The square covers a quarter of the canvas: 100 by 60 of 200 by 120.
    let small = visible_pixels(SQUARE, 100, 60);
    let large = visible_pixels(SQUARE, 200, 120);
    assert_eq!(small, 50 * 30);
    assert_eq!(large, 100 * 60);
    assert_eq!(large, 4 * small);
}

#[test]
fn doubling_the_target_keeps_a_round_shape_in_proportion() {
    let svg = "<svg xmlns=\"http://www.w3.org/2000/svg\" viewBox=\"0 0 200 120\"><circle cx=\"100\" cy=\"60\" r=\"40\"/></svg>";
    let small = visible_pixels(svg, 100, 60) as f64;
    let large = visible_pixels(svg, 200, 120) as f64;
    let ratio = large / small;
    assert!((ratio - 4.0).abs() < 0.25, "ratio {ratio}");
    // The disc covers pi * 40 * 40 of the canvas.
    let expected = std::f64::consts::PI * 40.0 * 40.0;
    assert!((large - expected).abs() / expected < 0.05, "large {large}");
}

#[test]
fn width_and_height_scale_on_their_own() {
    // Twice as wide and as high as before: the square covers a quarter of
    // the target whatever the shape of the target is.
    assert_eq!(visible_pixels(SQUARE, 40, 40), 20 * 20);
    assert_eq!(visible_pixels(SQUARE, 80, 40), 40 * 20);
    assert_eq!(visible_pixels(SQUARE, 40, 80), 20 * 40);
}

#[test]
fn rasterizing_twice_gives_the_same_pixels() {
    let svg = Face::Happy.to_svg();
    let first = FacePixmapStore::get_svg_pixmap(&svg, 64, 48, scale(64, 48)).unwrap();
    let second = FacePixmapStore::get_svg_pixmap(&svg, 64, 48, scale(64, 48)).unwrap();
    assert_eq!(first.data(), second.data());
}
