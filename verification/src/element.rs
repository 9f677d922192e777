//! Typed image containers over a rectangular pixel grid.
//!
//! An `Image<T>` is a grid of pixels of kind `T` together with the width and
//! height it was declared with. The typed images (binary, gray, gray with
//! alpha, RGBA, ...) are distinct types over it, so that a layer can tell them
//! apart even where two of them store the same kind of pixel.

pub mod grid;
pub mod pixel;

use vstd::prelude::*;
use crate::element::grid::{addressable, Grid, Pixel};
use crate::element::pixel::{RGB, RGBA};
use crate::error::Error;

verus! {

/// A line. So far it is a name, and holds nothing.
pub struct Line {}

/// A point. So far it is a name, and holds nothing.
pub struct Point {}

/// What an image is: its dimensions, and its pixels row by row.
pub struct ImageView<T> {
    pub width: nat,
    pub height: nat,
    pub pixels: Seq<T>,
}

/// A grid of pixels with its declared width and height.
#[verifier::reject_recursive_types(T)]
pub struct Image<T> {
    data: Grid<T>,
    width: usize,
    height: usize,
}

impl<T: Pixel> View for Image<T> {
    type V = ImageView<T>;

    closed spec fn view(&self) -> ImageView<T> {
        ImageView {
            width: self.width as nat,
            height: self.height as nat,
            pixels: self.data.cells(),
        }
    }
}

impl<T: Pixel> Image<T> {
    /// The shape invariant: the grid has `height` rows and `width` columns.
    pub closed spec fn wf(&self) -> bool {
        self.data.rows() == self.height && self.data.cols() == self.width
    }

    /// Wraps `data` as an image of the declared width and height. Fails with
    /// `ShapeMismatch`, naming both shapes, unless the grid has exactly
    /// `height` rows and `width` columns.
    pub fn new(data: Grid<T>, width: usize, height: usize) -> (made: Result<Self, Error>)
        ensures
            made is Ok <==> (data.rows() == height && data.cols() == width),
            made matches Ok(image) ==> image.wf() && image@ == (ImageView {
                width: width as nat,
                height: height as nat,
                pixels: data.cells(),
            }),
            made matches Err(e) ==> e == (Error::ShapeMismatch {
                actual: (data.rows() as usize, data.cols() as usize),
                declared: (height, width),
            }),
    {
        let rows = data.len_of(0);
        let cols = data.len_of(1);
        if rows == height && cols == width {
            Ok(Image { data, width, height })
        } else {
            Err(Error::ShapeMismatch { actual: (rows, cols), declared: (height, width) })
        }
    }

    /// Builds an image from its pixels, given row by row. Fails with
    /// `ShapeMismatch` unless there are `width * height` of them and a grid of
    /// that shape is addressable.
    pub fn from_shape_vec(data: Vec<T>, width: usize, height: usize) -> (made: Result<Self, Error>)
        ensures
            made is Ok <==> (data@.len() == height * width && addressable(height, width)),
            made matches Ok(image) ==> image.wf() && image@ == (ImageView {
                width: width as nat,
                height: height as nat,
                pixels: data@,
            }),
            made matches Err(e) ==> e == (Error::ShapeMismatch {
                actual: (1, data@.len() as usize),
                declared: (height, width),
            }),
    {
        match Grid::from_shape_vec(height, width, data) {
            Ok(grid) => Image::new(grid, width, height),
            Err(e) => Err(e),
        }
    }

    /// The grid that holds the pixels.
    pub fn data(&self) -> (data: &Grid<T>)
        ensures
            data.cells() == self@.pixels,
            self.wf() ==> data.rows() == self@.height && data.cols() == self@.width,
    {
        &self.data
    }

    pub fn height(&self) -> (height: usize)
        ensures
            height == self@.height,
    {
        self.height
    }

    pub fn width(&self) -> (width: usize)
        ensures
            width == self@.width,
    {
        self.width
    }

    /// A copy of the pixels, row by row.
    pub fn pixels(&self) -> (pixels: Vec<T>)
        ensures
            pixels@ == self@.pixels,
            self.wf() ==> pixels@.len() == self@.width * self@.height,
    {
        let pixels = self.data.to_vec();
        proof {
            if self.wf() {
                assert(self.data.rows() * self.data.cols() == self@.width * self@.height)
                    by (nonlinear_arith)
                    requires
                        self.data.rows() == self@.height,
                        self.data.cols() == self@.width,
                ;
            }
        }
        pixels
    }
}

/// A binary image with an alpha channel: every pixel is on or off, and has
/// an alpha value. So far nothing makes one.
pub struct BinaryAlphaImage(Image<(bool, u8)>);

/// An image of red, green and blue bytes. So far nothing makes one.
pub struct RgbImage(Image<RGB<u8>>);

impl RgbImage {
    /// The image inside.
    pub closed spec fn image(&self) -> Image<RGB<u8>> {
        self.0
    }
}

impl std::ops::Deref for RgbImage {
    type Target = Image<RGB<u8>>;

    fn deref(&self) -> (image: &Image<RGB<u8>>)
        ensures
            *image == self.image(),
    {
        &self.0
    }
}

/// A binary image: every pixel is on or off.
pub struct BinaryImage(Image<bool>);

impl View for BinaryImage {
    type V = ImageView<bool>;

    closed spec fn view(&self) -> ImageView<bool> {
        self.0@
    }
}

impl BinaryImage {
    #[verifier::type_invariant]
    spec fn shaped(self) -> bool {
        self.0.wf()
    }

    /// Wraps `data` as an image of the declared width and height. Fails with
    /// `ShapeMismatch`, naming both shapes, unless the grid has exactly
    /// `height` rows and `width` columns.
    pub fn new(data: Grid<bool>, width: usize, height: usize) -> (made: Result<Self, Error>)
        ensures
            made is Ok <==> (data.rows() == height && data.cols() == width),
            made matches Ok(image) ==> image@ == (ImageView {
                width: width as nat,
                height: height as nat,
                pixels: data.cells(),
            }),
            made matches Err(e) ==> e == (Error::ShapeMismatch {
                actual: (data.rows() as usize, data.cols() as usize),
                declared: (height, width),
            }),
    {
        match Image::new(data, width, height) {
            Ok(image) => Ok(BinaryImage(image)),
            Err(e) => Err(e),
        }
    }

    /// Builds an image from its pixels, given row by row. Fails with
    /// `ShapeMismatch` unless there are `width * height` of them and a grid of
    /// that shape is addressable.
    pub fn from_shape_vec(data: Vec<bool>, width: usize, height: usize) -> (made: Result<Self, Error>)
        ensures
            made is Ok <==> (data@.len() == height * width && addressable(height, width)),
            made matches Ok(image) ==> image@ == (ImageView {
                width: width as nat,
                height: height as nat,
                pixels: data@,
            }),
            made matches Err(e) ==> e == (Error::ShapeMismatch {
                actual: (1, data@.len() as usize),
                declared: (height, width),
            }),
    {
        match Image::from_shape_vec(data, width, height) {
            Ok(image) => Ok(BinaryImage(image)),
            Err(e) => Err(e),
        }
    }

    /// The grid that holds the pixels: `height` rows of `width` columns.
    pub fn data(&self) -> (data: &Grid<bool>)
        ensures
            data.cells() == self@.pixels,
            data.rows() == self@.height,
            data.cols() == self@.width,
    {
        proof {
            use_type_invariant(self);
        }
        self.0.data()
    }

    pub fn height(&self) -> (height: usize)
        ensures
            height == self@.height,
    {
        self.0.height()
    }

    pub fn width(&self) -> (width: usize)
        ensures
            width == self@.width,
    {
        self.0.width()
    }

    /// A copy of the pixels, row by row: `width * height` of them.
    pub fn pixels(&self) -> (pixels: Vec<bool>)
        ensures
            pixels@ == self@.pixels,
            pixels@.len() == self@.width * self@.height,
    {
        proof {
            use_type_invariant(self);
        }
        self.0.pixels()
    }
}

impl std::ops::Deref for BinaryImage {
    type Target = Image<bool>;

    fn deref(&self) -> (image: &Image<bool>)
        ensures
            image.wf(),
            image@ == self@,
    {
        proof {
            use_type_invariant(self);
        }
        &self.0
    }
}

/// An image of red, green, blue and alpha bytes.
pub struct RgbaImage(Image<RGBA<u8>>);

impl View for RgbaImage {
    type V = ImageView<RGBA<u8>>;

    closed spec fn view(&self) -> ImageView<RGBA<u8>> {
        self.0@
    }
}

impl RgbaImage {
    #[verifier::type_invariant]
    spec fn shaped(self) -> bool {
        self.0.wf()
    }

    /// Wraps `data` as an image of the declared width and height. Fails with
    /// `ShapeMismatch`, naming both shapes, unless the grid has exactly
    /// `height` rows and `width` columns.
    pub fn new(data: Grid<RGBA<u8>>, width: usize, height: usize) -> (made: Result<Self, Error>)
        ensures
            made is Ok <==> (data.rows() == height && data.cols() == width),
            made matches Ok(image) ==> image@ == (ImageView {
                width: width as nat,
                height: height as nat,
                pixels: data.cells(),
            }),
            made matches Err(e) ==> e == (Error::ShapeMismatch {
                actual: (data.rows() as usize, data.cols() as usize),
                declared: (height, width),
            }),
    {
        match Image::new(data, width, height) {
            Ok(image) => Ok(RgbaImage(image)),
            Err(e) => Err(e),
        }
    }

    /// Builds an image from its pixels, given row by row. Fails with
    /// `ShapeMismatch` unless there are `width * height` of them and a grid of
    /// that shape is addressable.
    pub fn from_shape_vec(data: Vec<RGBA<u8>>, width: usize, height: usize) -> (made: Result<Self, Error>)
        ensures
            made is Ok <==> (data@.len() == height * width && addressable(height, width)),
            made matches Ok(image) ==> image@ == (ImageView {
                width: width as nat,
                height: height as nat,
                pixels: data@,
            }),
            made matches Err(e) ==> e == (Error::ShapeMismatch {
                actual: (1, data@.len() as usize),
                declared: (height, width),
            }),
    {
        match Image::from_shape_vec(data, width, height) {
            Ok(image) => Ok(RgbaImage(image)),
            Err(e) => Err(e),
        }
    }

    /// The grid that holds the pixels: `height` rows of `width` columns.
    pub fn data(&self) -> (data: &Grid<RGBA<u8>>)
        ensures
            data.cells() == self@.pixels,
            data.rows() == self@.height,
            data.cols() == self@.width,
    {
        proof {
            use_type_invariant(self);
        }
        self.0.data()
    }

    pub fn height(&self) -> (height: usize)
        ensures
            height == self@.height,
    {
        self.0.height()
    }

    pub fn width(&self) -> (width: usize)
        ensures
            width == self@.width,
    {
        self.0.width()
    }

    /// A copy of the pixels, row by row: `width * height` of them.
    pub fn pixels(&self) -> (pixels: Vec<RGBA<u8>>)
        ensures
            pixels@ == self@.pixels,
            pixels@.len() == self@.width * self@.height,
    {
        proof {
            use_type_invariant(self);
        }
        self.0.pixels()
    }
}

impl std::ops::Deref for RgbaImage {
    type Target = Image<RGBA<u8>>;

    fn deref(&self) -> (image: &Image<RGBA<u8>>)
        ensures
            image.wf(),
            image@ == self@,
    {
        proof {
            use_type_invariant(self);
        }
        &self.0
    }
}

/// A grayscale image with an alpha channel: every pixel is a gray level and an
/// alpha value. Distinct from any other image of byte pairs.
pub struct GrayAlphaImage(Image<(u8, u8)>);

impl View for GrayAlphaImage {
    type V = ImageView<(u8, u8)>;

    closed spec fn view(&self) -> ImageView<(u8, u8)> {
        self.0@
    }
}

impl GrayAlphaImage {
    #[verifier::type_invariant]
    spec fn shaped(self) -> bool {
        self.0.wf()
    }

    /// Wraps `data` as an image of the declared width and height. Fails with
    /// `ShapeMismatch`, naming both shapes, unless the grid has exactly
    /// `height` rows and `width` columns.
    pub fn new(data: Grid<(u8, u8)>, width: usize, height: usize) -> (made: Result<Self, Error>)
        ensures
            made is Ok <==> (data.rows() == height && data.cols() == width),
            made matches Ok(image) ==> image@ == (ImageView {
                width: width as nat,
                height: height as nat,
                pixels: data.cells(),
            }),
            made matches Err(e) ==> e == (Error::ShapeMismatch {
                actual: (data.rows() as usize, data.cols() as usize),
                declared: (height, width),
            }),
    {
        match Image::new(data, width, height) {
            Ok(image) => Ok(GrayAlphaImage(image)),
            Err(e) => Err(e),
        }
    }

    /// Builds an image from its pixels, given row by row. Fails with
    /// `ShapeMismatch` unless there are `width * height` of them and a grid of
    /// that shape is addressable.
    pub fn from_shape_vec(data: Vec<(u8, u8)>, width: usize, height: usize) -> (made: Result<Self, Error>)
        ensures
            made is Ok <==> (data@.len() == height * width && addressable(height, width)),
            made matches Ok(image) ==> image@ == (ImageView {
                width: width as nat,
                height: height as nat,
                pixels: data@,
            }),
            made matches Err(e) ==> e == (Error::ShapeMismatch {
                actual: (1, data@.len() as usize),
                declared: (height, width),
            }),
    {
        match Image::from_shape_vec(data, width, height) {
            Ok(image) => Ok(GrayAlphaImage(image)),
            Err(e) => Err(e),
        }
    }

    /// The grid that holds the pixels: `height` rows of `width` columns.
    pub fn data(&self) -> (data: &Grid<(u8, u8)>)
        ensures
            data.cells() == self@.pixels,
            data.rows() == self@.height,
            data.cols() == self@.width,
    {
        proof {
            use_type_invariant(self);
        }
        self.0.data()
    }

    pub fn height(&self) -> (height: usize)
        ensures
            height == self@.height,
    {
        self.0.height()
    }

    pub fn width(&self) -> (width: usize)
        ensures
            width == self@.width,
    {
        self.0.width()
    }

    /// A copy of the pixels, row by row: `width * height` of them.
    pub fn pixels(&self) -> (pixels: Vec<(u8, u8)>)
        ensures
            pixels@ == self@.pixels,
            pixels@.len() == self@.width * self@.height,
    {
        proof {
            use_type_invariant(self);
        }
        self.0.pixels()
    }
}

impl std::ops::Deref for GrayAlphaImage {
    type Target = Image<(u8, u8)>;

    fn deref(&self) -> (image: &Image<(u8, u8)>)
        ensures
            image.wf(),
            image@ == self@,
    {
        proof {
            use_type_invariant(self);
        }
        &self.0
    }
}

/// A grayscale image: every pixel is a gray level.
pub struct GrayImage(Image<u8>);

impl View for GrayImage {
    type V = ImageView<u8>;

    closed spec fn view(&self) -> ImageView<u8> {
        self.0@
    }
}

impl GrayImage {
    #[verifier::type_invariant]
    spec fn shaped(self) -> bool {
        self.0.wf()
    }

    /// Wraps `data` as an image of the declared width and height. Fails with
    /// `ShapeMismatch`, naming both shapes, unless the grid has exactly
    /// `height` rows and `width` columns.
    pub fn new(data: Grid<u8>, width: usize, height: usize) -> (made: Result<Self, Error>)
        ensures
            made is Ok <==> (data.rows() == height && data.cols() == width),
            made matches Ok(image) ==> image@ == (ImageView {
                width: width as nat,
                height: height as nat,
                pixels: data.cells(),
            }),
            made matches Err(e) ==> e == (Error::ShapeMismatch {
                actual: (data.rows() as usize, data.cols() as usize),
                declared: (height, width),
            }),
    {
        match Image::new(data, width, height) {
            Ok(image) => Ok(GrayImage(image)),
            Err(e) => Err(e),
        }
    }

    /// Builds an image from its pixels, given row by row. Fails with
    /// `ShapeMismatch` unless there are `width * height` of them and a grid of
    /// that shape is addressable.
    pub fn from_shape_vec(data: Vec<u8>, width: usize, height: usize) -> (made: Result<Self, Error>)
        ensures
            made is Ok <==> (data@.len() == height * width && addressable(height, width)),
            made matches Ok(image) ==> image@ == (ImageView {
                width: width as nat,
                height: height as nat,
                pixels: data@,
            }),
            made matches Err(e) ==> e == (Error::ShapeMismatch {
                actual: (1, data@.len() as usize),
                declared: (height, width),
            }),
    {
        match Image::from_shape_vec(data, width, height) {
            Ok(image) => Ok(GrayImage(image)),
            Err(e) => Err(e),
        }
    }

    /// The grid that holds the pixels: `height` rows of `width` columns.
    pub fn data(&self) -> (data: &Grid<u8>)
        ensures
            data.cells() == self@.pixels,
            data.rows() == self@.height,
            data.cols() == self@.width,
    {
        proof {
            use_type_invariant(self);
        }
        self.0.data()
    }

    pub fn height(&self) -> (height: usize)
        ensures
            height == self@.height,
    {
        self.0.height()
    }

    pub fn width(&self) -> (width: usize)
        ensures
            width == self@.width,
    {
        self.0.width()
    }

    /// A copy of the pixels, row by row: `width * height` of them.
    pub fn pixels(&self) -> (pixels: Vec<u8>)
        ensures
            pixels@ == self@.pixels,
            pixels@.len() == self@.width * self@.height,
    {
        proof {
            use_type_invariant(self);
        }
        self.0.pixels()
    }
}

impl std::ops::Deref for GrayImage {
    type Target = Image<u8>;

    fn deref(&self) -> (image: &Image<u8>)
        ensures
            image.wf(),
            image@ == self@,
    {
        proof {
            use_type_invariant(self);
        }
        &self.0
    }
}

/// `iced_native::widget::image::Handle`, of which Verus sees no more than
/// that it is a type.
#[verifier::external_type_specification]
#[verifier::external_body]
pub struct ExHandle(iced_native::widget::image::Handle);

/// The pixel bytes that an image handle holds, in the order blue, green, red,
/// alpha.
pub uninterp spec fn handle_pixels(handle: iced_native::widget::image::Handle) -> Seq<u8>;

/// The width and the height, in that order, of the image that a handle holds
/// the pixels of.
pub uninterp spec fn handle_extent(handle: iced_native::widget::image::Handle) -> Seq<u32>;

/// `Handle::from_pixels`. The contract claims that the handle holds the
/// width, the height and the pixel bytes as they were given.
#[verifier::external_body]
fn handle_from_pixels(width: u32, height: u32, pixels: Vec<u8>) -> (handle: iced_native::widget::image::Handle)
    ensures
        handle_extent(handle) == seq![width, height],
        handle_pixels(handle) == pixels@,
{
    iced_native::widget::image::Handle::from_pixels(width, height, pixels)
}

/// The bytes of RGBA pixels in the order blue, green, red, alpha, pixel by
/// pixel.
pub open spec fn bgra(pixels: Seq<RGBA<u8>>) -> Seq<u8> {
    Seq::new(
        4 * pixels.len(),
        |i: int|
            if i % 4 == 0 {
                pixels[i / 4].channels()[2]
            } else if i % 4 == 1 {
                pixels[i / 4].channels()[1]
            } else if i % 4 == 2 {
                pixels[i / 4].channels()[0]
            } else {
                pixels[i / 4].channels()[3]
            },
    )
}

impl RgbaImage {
    /// The bytes of the image in the order blue, green, red, alpha, pixel by
    /// pixel and row by row.
    pub fn bgra_bytes(&self) -> (bytes: Vec<u8>)
        ensures
            bytes@ == bgra(self@.pixels),
    {
        let pixels = self.pixels();
        let mut bytes: Vec<u8> = Vec::new();
        let mut i: usize = 0;
        while i < pixels.len()
            invariant
                i <= pixels.len(),
                bytes@ == bgra(pixels@.take(i as int)),
            decreases pixels.len() - i,
        {
            let pixel = pixels[i];
            bytes.push(pixel.b());
            bytes.push(pixel.g());
            bytes.push(pixel.r());
            bytes.push(pixel.a());
            i += 1;
        }
        bytes
    }

    /// An image handle for showing the image: it holds the bytes of the
    /// image in the order blue, green, red, alpha. Width and height are cut to
    /// 32 bits.
    pub fn handle(&self) -> (handle: iced_native::widget::image::Handle)
        ensures
            handle_extent(handle) == seq![self@.width as usize as u32, self@.height as usize as u32],
            handle_pixels(handle) == bgra(self@.pixels),
    {
        let pixels = self.bgra_bytes();
        handle_from_pixels(
            #[verifier::truncate]
            (self.width() as u32),
            #[verifier::truncate]
            (self.height() as u32),
            pixels,
        )
    }
}

} // verus!
