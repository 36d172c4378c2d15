use pathtracer::texture::{checker_is_even, wrap_coordinate, ImageTexture};

#[test]
fn checker_parity_at_origin_and_neighbors() {
    assert!(checker_is_even(0, 0));
    assert!(!checker_is_even(1, 0));
    assert!(!checker_is_even(0, 1));
    assert!(checker_is_even(1, 1));
}

#[test]
fn checker_parity_with_negative_cells() {
    assert!(!checker_is_even(-1, 0));
    assert!(checker_is_even(-1, -1));
    assert!(!checker_is_even(-3, 2));
    assert!(checker_is_even(-2, 2));
}

#[test]
fn checker_parity_at_extremes() {
    assert!(checker_is_even(i32::MAX, i32::MAX));
    assert!(checker_is_even(i32::MIN, i32::MIN));
    assert!(!checker_is_even(i32::MIN, i32::MAX));
}

#[test]
fn wrap_inside_range_is_identity() {
    assert_eq!(wrap_coordinate(0, 8), 0);
    assert_eq!(wrap_coordinate(7, 8), 7);
}

#[test]
fn wrap_past_the_end_comes_around() {
    assert_eq!(wrap_coordinate(8, 8), 0);
    assert_eq!(wrap_coordinate(17, 8), 1);
}

#[test]
fn wrap_negative_counts_from_the_end() {
    assert_eq!(wrap_coordinate(-1, 8), 7);
    assert_eq!(wrap_coordinate(-3, 8), 5);
    assert_eq!(wrap_coordinate(-8, 8), 0);
    assert_eq!(wrap_coordinate(i64::MIN, 8), 0);
}

fn two_by_two() -> image::DynamicImage {
    // Rows from the top: (A B) over (C D), each pixel a distinct color.
    let mut raster = image::RgbImage::new(2, 2);
    raster.put_pixel(0, 0, image::Rgb([10, 11, 12])); // A: top left
    raster.put_pixel(1, 0, image::Rgb([20, 21, 22])); // B: top right
    raster.put_pixel(0, 1, image::Rgb([30, 31, 32])); // C: bottom left
    raster.put_pixel(1, 1, image::Rgb([40, 41, 42])); // D: bottom right
    image::DynamicImage::ImageRgb8(raster)
}

#[test]
fn sample_flips_the_vertical_axis() {
    let texture = ImageTexture::new(two_by_two()).unwrap();
    // Sample row 0 reads the raster's bottom row, sample row 1 its top row.
    assert_eq!(texture.sample(0, 0), (30, 31, 32));
    assert_eq!(texture.sample(1, 0), (40, 41, 42));
    assert_eq!(texture.sample(0, 1), (10, 11, 12));
    assert_eq!(texture.sample(1, 1), (20, 21, 22));
}

#[test]
fn sample_wraps_both_coordinates() {
    let texture = ImageTexture::new(two_by_two()).unwrap();
    assert_eq!(texture.sample(2, 0), texture.sample(0, 0));
    assert_eq!(texture.sample(-1, 0), texture.sample(1, 0));
    assert_eq!(texture.sample(0, 3), texture.sample(0, 1));
    assert_eq!(texture.sample(-2, -2), texture.sample(0, 0));
}

#[test]
fn empty_raster_is_rejected() {
    let raster = image::RgbImage::new(0, 3);
    assert!(ImageTexture::new(image::DynamicImage::ImageRgb8(raster)).is_none());
    let raster = image::RgbImage::new(3, 0);
    assert!(ImageTexture::new(image::DynamicImage::ImageRgb8(raster)).is_none());
}
