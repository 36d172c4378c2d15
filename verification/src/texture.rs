//! Discrete texture lookups.
//!
//! A texture maps a surface coordinate to a color.  The continuous part of
//! that — scaling and rounding the `(u, v)` coordinate, turning bytes into
//! linear radiance — happens outside this crate.  What is verified here is
//! the discrete part: which checkerboard cell a rounded lattice coordinate
//! falls in, and which raster pixel an image texture reads, with
//! wraparound via the Euclidean remainder and the vertical axis flipped to
//! match image row order.

use vstd::prelude::*;

verus! {

/// Whether the checkerboard cell at the rounded lattice coordinates
/// `(ix, iy)` takes the even color: the parity of their sum decides.
pub fn checker_is_even(ix: i32, iy: i32) -> (even: bool)
    ensures
        even <==> (ix + iy) % 2 == 0,
{
    let sum: i64 = ix as i64 + iy as i64;
    match sum.checked_rem_euclid(2) {
        Some(r) => r == 0,
        None => unreached(),
    }
}

/// Wraps an arbitrary (possibly negative) rounded coordinate into
/// `0..extent` by the Euclidean remainder.
pub fn wrap_coordinate(coordinate: i64, extent: u32) -> (wrapped: u32)
    requires
        extent > 0,
    ensures
        wrapped == coordinate as int % extent as int,
        wrapped < extent,
{
    match coordinate.checked_rem_euclid(extent as i64) {
        Some(r) => r as u32,
        None => unreached(),
    }
}

#[verifier::external_type_specification]
#[verifier::external_body]
pub struct ExDynamicImage(image::DynamicImage);

/// The width, in pixels, of a decoded raster.
pub uninterp spec fn raster_width(img: image::DynamicImage) -> u32;

/// The height, in pixels, of a decoded raster.
pub uninterp spec fn raster_height(img: image::DynamicImage) -> u32;

/// The RGB value of the raster's pixel at `(x, y)`, indexed from the top
/// left — a pure function of the decoded raster and the coordinates.
pub uninterp spec fn raster_rgb(img: image::DynamicImage, x: u32, y: u32) -> (u8, u8, u8);

/// Relies on image::GenericImageView::dimensions for DynamicImage: it
/// returns the raster's width and height, in that order.
#[verifier::external_body]
fn raster_dimensions(img: &image::DynamicImage) -> (dims: (u32, u32))
    ensures
        dims.0 == raster_width(*img),
        dims.1 == raster_height(*img),
{
    image::GenericImageView::dimensions(img)
}

/// Relies on image::GenericImageView::get_pixel for DynamicImage, defined
/// for every `x < width`, `y < height` (it panics outside), and on
/// image::Pixel::to_rgb, which drops the alpha channel; together they read
/// the pixel as a pure function of the raster and the coordinates.
#[verifier::external_body]
fn raster_pixel(img: &image::DynamicImage, x: u32, y: u32) -> (rgb: (u8, u8, u8))
    requires
        x < raster_width(*img),
        y < raster_height(*img),
    ensures
        rgb == raster_rgb(*img, x, y),
{
    let pixel = image::Pixel::to_rgb(&image::GenericImageView::get_pixel(img, x, y));
    (pixel.0[0], pixel.0[1], pixel.0[2])
}

/// An image-sampled texture: a decoded raster read by nearest-pixel
/// lookup.
pub struct ImageTexture {
    data: image::DynamicImage,
    width: u32,
    height: u32,
}

impl ImageTexture {
    /// The cached dimensions match the raster and the raster is not
    /// degenerate.
    pub closed spec fn wf(&self) -> bool {
        &&& self.width == raster_width(self.data)
        &&& self.height == raster_height(self.data)
        &&& self.width > 0
        &&& self.height > 0
    }

    pub closed spec fn raster(&self) -> image::DynamicImage {
        self.data
    }

    pub closed spec fn spec_width(&self) -> u32 {
        self.width
    }

    pub closed spec fn spec_height(&self) -> u32 {
        self.height
    }

    pub fn width(&self) -> (w: u32)
        ensures
            w == self.spec_width(),
    {
        self.width
    }

    pub fn height(&self) -> (h: u32)
        ensures
            h == self.spec_height(),
    {
        self.height
    }

    /// Takes ownership of a decoded raster; an empty raster (either
    /// dimension zero) cannot be sampled and is rejected.
    pub fn new(data: image::DynamicImage) -> (texture: Option<ImageTexture>)
        ensures
            texture matches Some(t) ==> {
                &&& t.wf()
                &&& t.raster() == data
                &&& t.spec_width() == raster_width(data)
                &&& t.spec_height() == raster_height(data)
            },
            texture is Some <==> raster_width(data) > 0 && raster_height(data) > 0,
    {
        let (width, height) = raster_dimensions(&data);
        if width == 0 || height == 0 {
            None
        } else {
            Some(ImageTexture { data, width, height })
        }
    }

    /// The pixel the texture reads for the rounded sample coordinates
    /// `(px, py)`: both are wrapped into the raster by the Euclidean
    /// remainder, and the vertical coordinate is flipped so that row 0 of
    /// the raster is the top of the texture.
    pub fn sample(&self, px: i64, py: i64) -> (rgb: (u8, u8, u8))
        requires
            self.wf(),
        ensures
            rgb == raster_rgb(
                self.raster(),
                (px as int % self.spec_width() as int) as u32,
                (self.spec_height() - 1 - py as int % self.spec_height() as int) as u32,
            ),
    {
        let x = wrap_coordinate(px, self.width);
        let y = wrap_coordinate(py, self.height);
        raster_pixel(&self.data, x, self.height - 1 - y)
    }
}

} // verus!
