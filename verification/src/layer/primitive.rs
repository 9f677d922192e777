//! The primitive layers: a source read from a file, conversions between image
//! types, and thresholding.

use std::cmp::Ordering;
use std::marker::PhantomData;
use std::path::PathBuf;
use vstd::prelude::*;
use crate::element::grid::{addressable, binary_map_gray, gray_map_binary};
use crate::element::pixel::RGBA;
use crate::element::{BinaryImage, GrayAlphaImage, GrayImage, ImageView, RgbaImage};
use crate::error::Error;
use crate::layer::{
    commit,
    committed,
    cycle,
    erased_slot,
    needs_input,
    required_input,
    shared_output,
    single_input,
    slot_value,
    Computed,
    Element,
    ElementRef,
    Inputs,
    Layer,
    Typed,
};

verus! {

/// `std::path::PathBuf`, of which Verus sees no more than that it is a type.
#[verifier::external_type_specification]
#[verifier::external_body]
pub struct ExPathBuf(PathBuf);

/// The gray level that stands for a binary pixel: white for on, black for off.
pub open spec fn gray_level(on: bool) -> u8 {
    if on {
        u8::MAX
    } else {
        u8::MIN
    }
}

/// The gray level that stands for a binary pixel.
pub fn level_of(on: bool) -> (level: u8)
    ensures
        level == gray_level(on),
{
    if on {
        u8::MAX
    } else {
        u8::MIN
    }
}

/// The gray image that stands for a binary image: the same dimensions, and the
/// gray level of each pixel in its place.
pub open spec fn binary_as_gray(image: ImageView<bool>) -> ImageView<u8> {
    ImageView {
        width: image.width,
        height: image.height,
        pixels: image.pixels.map_values(|on: bool| gray_level(on)),
    }
}

/// The pixels of a gray image with alpha, from the luminance of each pixel of
/// an RGBA image and that pixel's alpha channel, which passes through
/// unchanged.
pub open spec fn luminance_with_alpha(luminance: Seq<u8>, pixels: Seq<RGBA<u8>>) -> Seq<(u8, u8)> {
    Seq::new(pixels.len(), |i: int| (luminance[i], pixels[i].channels()[3]))
}

/// Applies a fixed conversion from images of type `A` to images of type `B`
/// to the output of a single parent.
pub struct Convert<A, B> {
    output: Option<B>,
    input: PhantomData<A>,
}

impl<A, B: Typed> Convert<A, B> {
    /// The cached output.
    pub closed spec fn held(&self) -> Option<B> {
        self.output
    }

    /// Commits `output` to the cached slot, replacing what was there. An
    /// output that is not a `B` is turned down with `TypeMismatch`, and the
    /// slot keeps what it held. No state patch is supported.
    pub fn update(&mut self, output: Option<Element>, state_updates: Option<Element>) -> (result: Result<(), Error>)
        requires
            state_updates is None,
        ensures
            result == committed::<B>(output),
            slot_value(final(self).held()) == if result is Ok {
                output
            } else {
                slot_value(old(self).held())
            },
    {
        commit(&mut self.output, output)
    }

    /// The cached output, or nothing if none was ever committed.
    pub fn output(&self) -> (shared: Option<ElementRef<'_>>)
        ensures
            erased_slot(shared) == slot_value(self.held()),
    {
        shared_output(&self.output)
    }
}

impl Convert<RgbaImage, GrayAlphaImage> {
    pub fn new() -> (layer: Self)
        ensures
            layer.held() is None,
    {
        Convert { output: None, input: PhantomData }
    }

    /// Converts an RGBA image to gray with alpha, given the luminance of each
    /// of its pixels, row by row: every pixel becomes its luminance paired
    /// with its own alpha, in an image of the same width and height.
    ///
    /// Fails with `ShapeMismatch` unless there is one luminance for each
    /// pixel and a grid of the image's shape is addressable.
    pub fn compute(input: &RgbaImage, luminance: &Vec<u8>) -> (converted: Result<GrayAlphaImage, Error>)
        ensures
            converted is Ok <==> (luminance@.len() == input@.height * input@.width && addressable(
                input@.height as usize,
                input@.width as usize,
            )),
            converted matches Ok(image) ==> image@ == (ImageView {
                width: input@.width,
                height: input@.height,
                pixels: luminance_with_alpha(luminance@, input@.pixels),
            }),
            converted matches Err(failure) ==> failure == (Error::ShapeMismatch {
                actual: (1, luminance@.len() as usize),
                declared: (input@.height as usize, input@.width as usize),
            }),
    {
        let width = input.width();
        let height = input.height();
        let pixels = input.pixels();
        assert(input@.width * input@.height == input@.height * input@.width)
            by (nonlinear_arith);
        if luminance.len() != pixels.len() {
            return Err(
                Error::ShapeMismatch { actual: (1, luminance.len()), declared: (height, width) },
            );
        }
        let mut cells: Vec<(u8, u8)> = Vec::new();
        let mut i: usize = 0;
        while i < pixels.len()
            invariant
                i <= pixels.len(),
                luminance.len() == pixels.len(),
                cells@ == luminance_with_alpha(luminance@, pixels@).take(i as int),
            decreases pixels.len() - i,
        {
            cells.push((luminance[i], pixels[i].a()));
            i += 1;
        }
        assert(cells@ == luminance_with_alpha(luminance@, pixels@));
        GrayAlphaImage::from_shape_vec(cells, width, height)
    }
}

impl Default for Convert<RgbaImage, GrayAlphaImage> {
    fn default() -> (layer: Self)
        ensures
            layer.held() is None,
    {
        Self::new()
    }
}

impl Convert<BinaryImage, GrayImage> {
    pub fn new() -> (layer: Self)
        ensures
            layer.held() is None,
    {
        Convert { output: None, input: PhantomData }
    }

    /// Converts a binary image to gray: on becomes 255 and off becomes 0,
    /// pixel by pixel, in an image of the same width and height. Never
    /// fails.
    pub fn compute(input: &BinaryImage) -> (converted: Result<GrayImage, Error>)
        ensures
            converted matches Ok(image) && image@ == binary_as_gray(input@),
    {
        let data = binary_map_gray(input.data());
        GrayImage::new(data, input.width(), input.height())
    }
}

impl Default for Convert<BinaryImage, GrayImage> {
    fn default() -> (layer: Self)
        ensures
            layer.held() is None,
    {
        Self::new()
    }
}

impl Layer for Convert<BinaryImage, GrayImage> {
    open spec fn holds(&self, value: Option<Element>) -> bool {
        value == slot_value(self.held())
    }

    open spec fn computes(&self, inputs: Seq<Option<Element>>, result: Result<Computed, Error>) -> bool {
        match required_input::<BinaryImage>(inputs) {
            Ok(input) => result matches Ok((Some(Element::Gray(image)), None)) && image@
                == binary_as_gray(input@),
            Err(failure) => result == Err::<Computed, Error>(failure),
        }
    }

    open spec fn commits(&self, output: Option<Element>, result: Result<(), Error>) -> bool {
        result == committed::<GrayImage>(output)
    }

    open spec fn supports(&self, state_updates: Option<Element>) -> bool {
        state_updates is None
    }

    fn compute(&self, input: &Inputs<'_>) -> (result: Result<Computed, Error>) {
        let input = single_input::<BinaryImage>(input)?;
        let output = Self::compute(input)?;
        Ok((Some(Element::Gray(output)), None))
    }

    fn update(&mut self, output: Option<Element>, state_updates: Option<Element>) -> (result: Result<(), Error>) {
        Convert::update(self, output, state_updates)
    }

    fn output(&self) -> (shared: Option<ElementRef<'_>>) {
        Convert::output(self)
    }
}

/// The conversion from binary to gray works on a single binary input.
pub proof fn lemma_convert_needs_binary(layer: Convert<BinaryImage, GrayImage>)
    ensures
        needs_input::<Convert<BinaryImage, GrayImage>, BinaryImage>(layer),
{
}

/// Behind a parent that holds a binary image, the conversion to gray
/// succeeds: every evaluation cycle whose first input is a binary image ends
/// well, and the layer then holds the gray image that stands for it.
pub proof fn lemma_convert_succeeds(
    before: Convert<BinaryImage, GrayImage>,
    inputs: Seq<Option<Element>>,
    result: Result<(), Error>,
    after: Convert<BinaryImage, GrayImage>,
)
    requires
        cycle(before, inputs, result, after),
        inputs.len() > 0,
        inputs[0] matches Some(Element::Binary(_)),
    ensures
        result is Ok,
        after.held() matches Some(image) && image@ == binary_as_gray(
            inputs[0]->Some_0->Binary_0@,
        ),
{
}

/// A convolution. So far it is a name, and does nothing.
pub struct Convolve {}

/// A source layer: an image read from a file at a fixed path.
///
/// Reading the file is the host's part. A host wraps an `InputFile` in a layer
/// of its own, whose `compute` decodes the file at `file_path` and hands what
/// came of it to `compute` here.
pub struct InputFile<A> {
    file_path: PathBuf,
    output: Option<A>,
}

impl<A: Typed> InputFile<A> {
    /// The path of the file.
    pub closed spec fn path(&self) -> PathBuf {
        self.file_path
    }

    /// The cached output.
    pub closed spec fn held(&self) -> Option<A> {
        self.output
    }

    pub fn file_path(&self) -> (file_path: &PathBuf)
        ensures
            *file_path == self.path(),
    {
        &self.file_path
    }

    /// Commits `output` to the cached slot, replacing what was there. An
    /// output that is not an `A` is turned down with `TypeMismatch`, and the
    /// slot keeps what it held. No state patch is supported.
    pub fn update(&mut self, output: Option<Element>, state_updates: Option<Element>) -> (result: Result<(), Error>)
        requires
            state_updates is None,
        ensures
            result == committed::<A>(output),
            slot_value(final(self).held()) == if result is Ok {
                output
            } else {
                slot_value(old(self).held())
            },
            final(self).path() == old(self).path(),
    {
        commit(&mut self.output, output)
    }

    /// The cached output, or nothing if none was ever committed.
    pub fn output(&self) -> (shared: Option<ElementRef<'_>>)
        ensures
            erased_slot(shared) == slot_value(self.held()),
    {
        shared_output(&self.output)
    }
}

impl InputFile<RgbaImage> {
    pub fn new(file_path: PathBuf) -> (layer: Self)
        ensures
            layer.path() == file_path,
            layer.held() is None,
    {
        InputFile { file_path, output: None }
    }

    /// The new output, given what came of decoding the file: the decoded
    /// image, or `DecodeError` with the codec's reason where it failed.
    pub fn compute(&self, decoded: Result<RgbaImage, String>) -> (output: Result<RgbaImage, Error>)
        ensures
            output == match decoded {
                Ok(image) => Ok::<RgbaImage, Error>(image),
                Err(reason) => Err::<RgbaImage, Error>(Error::DecodeError { reason }),
            },
    {
        match decoded {
            Ok(image) => Ok(image),
            Err(reason) => Err(Error::DecodeError { reason }),
        }
    }
}

/// How a pixel stands to a threshold.
#[derive(Clone, Copy, Debug, PartialEq, Eq, Structural)]
pub enum Comparison {
    Less,
    Equal,
    Greater,
}

impl Comparison {
    /// The comparison that an ordering of the standard library names.
    pub open spec fn named_by(ordering: Ordering) -> Comparison {
        match ordering {
            Ordering::Less => Comparison::Less,
            Ordering::Equal => Comparison::Equal,
            Ordering::Greater => Comparison::Greater,
        }
    }

    pub fn from_std(ordering: Ordering) -> (comparison: Comparison)
        ensures
            comparison == Comparison::named_by(ordering),
    {
        match ordering {
            Ordering::Less => Comparison::Less,
            Ordering::Equal => Comparison::Equal,
            Ordering::Greater => Comparison::Greater,
        }
    }
}

/// How `pixel` stands to `threshold`.
pub open spec fn compared(pixel: u8, threshold: u8) -> Comparison {
    if pixel < threshold {
        Comparison::Less
    } else if pixel == threshold {
        Comparison::Equal
    } else {
        Comparison::Greater
    }
}

/// Whether `pixel` stands to `threshold` as `ordering` says.
pub open spec fn holds(pixel: u8, threshold: u8, ordering: Comparison) -> bool {
    compared(pixel, threshold) == ordering
}

/// Whether `pixel` stands to `threshold` as `ordering` says.
pub fn passes(pixel: u8, threshold: u8, ordering: Comparison) -> (passed: bool)
    ensures
        passed == holds(pixel, threshold, ordering),
{
    let found = if pixel < threshold {
        Comparison::Less
    } else if pixel == threshold {
        Comparison::Equal
    } else {
        Comparison::Greater
    };
    found == ordering
}

/// The binary image that thresholding makes of a gray image: the same
/// dimensions, and in each place whether the pixel there stands to
/// `threshold` as `ordering` says.
pub open spec fn thresholded(image: ImageView<u8>, threshold: u8, ordering: Comparison) -> ImageView<bool> {
    ImageView {
        width: image.width,
        height: image.height,
        pixels: image.pixels.map_values(|pixel: u8| holds(pixel, threshold, ordering)),
    }
}

/// Thresholding above the middle gray level undoes the conversion of a binary
/// image to gray: converting any binary image to gray and thresholding the
/// result at 128 with `Greater` gives the image back.
pub proof fn lemma_binary_survives_gray(image: ImageView<bool>)
    ensures
        thresholded(binary_as_gray(image), 128, Comparison::Greater) == image,
{
    let back = thresholded(binary_as_gray(image), 128, Comparison::Greater);
    assert(back.pixels =~= image.pixels);
}

/// On black and white the round trip from gray to binary and back changes
/// nothing: thresholding a gray image whose pixels are all 0 or 255 at 128
/// with `Greater`, and converting the result to gray, gives the image back.
/// So doing it a second time changes nothing either.
pub proof fn lemma_black_and_white_round_trip(image: ImageView<u8>)
    requires
        forall|i: int|
            0 <= i < image.pixels.len() ==> image.pixels[i] == 0 || image.pixels[i] == 255,
    ensures
        binary_as_gray(thresholded(image, 128, Comparison::Greater)) == image,
{
    let back = binary_as_gray(thresholded(image, 128, Comparison::Greater));
    assert(back.pixels =~= image.pixels);
}

/// Compares every pixel of the output of a single parent to a fixed
/// threshold.
pub struct Threshold<A, B, T> {
    threshold: T,
    ordering: Comparison,
    output: Option<B>,
    input: PhantomData<A>,
}

impl<A, B: Typed, T> Threshold<A, B, T> {
    /// The threshold that pixels are compared to.
    pub closed spec fn threshold(&self) -> T {
        self.threshold
    }

    /// The comparison that a pixel must meet to be on in the output.
    pub closed spec fn ordering(&self) -> Comparison {
        self.ordering
    }

    /// The cached output.
    pub closed spec fn held(&self) -> Option<B> {
        self.output
    }

    /// Commits `output` to the cached slot, replacing what was there. An
    /// output that is not a `B` is turned down with `TypeMismatch`, and the
    /// slot keeps what it held. No state patch is supported.
    pub fn update(&mut self, output: Option<Element>, state_updates: Option<Element>) -> (result: Result<(), Error>)
        requires
            state_updates is None,
        ensures
            result == committed::<B>(output),
            slot_value(final(self).held()) == if result is Ok {
                output
            } else {
                slot_value(old(self).held())
            },
            final(self).threshold() == old(self).threshold(),
            final(self).ordering() == old(self).ordering(),
    {
        commit(&mut self.output, output)
    }

    /// The cached output, or nothing if none was ever committed.
    pub fn output(&self) -> (shared: Option<ElementRef<'_>>)
        ensures
            erased_slot(shared) == slot_value(self.held()),
    {
        shared_output(&self.output)
    }
}

impl Threshold<GrayImage, BinaryImage, u8> {
    pub fn new(threshold: u8, ordering: Comparison) -> (layer: Self)
        ensures
            layer.threshold() == threshold,
            layer.ordering() == ordering,
            layer.held() is None,
    {
        Threshold { threshold, ordering, output: None, input: PhantomData }
    }

    /// Thresholds a gray image: the output has the same width and height, and
    /// a pixel is on exactly when the input pixel in its place stands to the
    /// threshold as the configured ordering says.
    pub fn compute(&self, input: &GrayImage) -> (output: BinaryImage)
        ensures
            output@ == thresholded(input@, self.threshold(), self.ordering()),
    {
        let data = gray_map_binary(input.data(), self.threshold, self.ordering);
        match BinaryImage::new(data, input.width(), input.height()) {
            Ok(output) => output,
            Err(_) => vstd::pervasive::unreached(),
        }
    }
}

impl Layer for Threshold<GrayImage, BinaryImage, u8> {
    open spec fn holds(&self, value: Option<Element>) -> bool {
        value == slot_value(self.held())
    }

    open spec fn computes(&self, inputs: Seq<Option<Element>>, result: Result<Computed, Error>) -> bool {
        match required_input::<GrayImage>(inputs) {
            Ok(input) => result matches Ok((Some(Element::Binary(image)), None)) && image@
                == thresholded(input@, self.threshold(), self.ordering()),
            Err(failure) => result == Err::<Computed, Error>(failure),
        }
    }

    open spec fn commits(&self, output: Option<Element>, result: Result<(), Error>) -> bool {
        result == committed::<BinaryImage>(output)
    }

    open spec fn supports(&self, state_updates: Option<Element>) -> bool {
        state_updates is None
    }

    fn compute(&self, input: &Inputs<'_>) -> (result: Result<Computed, Error>) {
        let input = single_input::<GrayImage>(input)?;
        let output = Self::compute(self, input);
        Ok((Some(Element::Binary(output)), None))
    }

    fn update(&mut self, output: Option<Element>, state_updates: Option<Element>) -> (result: Result<(), Error>) {
        Threshold::update(self, output, state_updates)
    }

    fn output(&self) -> (shared: Option<ElementRef<'_>>) {
        Threshold::output(self)
    }
}

/// Thresholding works on a single gray input.
pub proof fn lemma_threshold_needs_gray(layer: Threshold<GrayImage, BinaryImage, u8>)
    ensures
        needs_input::<Threshold<GrayImage, BinaryImage, u8>, GrayImage>(layer),
{
}

/// Behind a parent that holds a gray image, thresholding succeeds: every
/// evaluation cycle whose first input is a gray image ends well, and the
/// layer then holds that image thresholded, with the threshold and the
/// ordering it was made with.
pub proof fn lemma_threshold_succeeds(
    before: Threshold<GrayImage, BinaryImage, u8>,
    inputs: Seq<Option<Element>>,
    result: Result<(), Error>,
    after: Threshold<GrayImage, BinaryImage, u8>,
)
    requires
        cycle(before, inputs, result, after),
        inputs.len() > 0,
        inputs[0] matches Some(Element::Gray(_)),
    ensures
        result is Ok,
        after.held() matches Some(image) && image@ == thresholded(
            inputs[0]->Some_0->Gray_0@,
            before.threshold(),
            before.ordering(),
        ),
{
}

/// An affine transformation of images of type `A`. So far it is a name, and
/// does nothing.
pub struct TransformAffine<A> {
    input: PhantomData<A>,
}

} // verus!
