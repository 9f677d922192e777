//! Layers that a host can show.

use std::marker::PhantomData;
use vstd::prelude::*;
use crate::element::{bgra, handle_extent, handle_pixels, RgbaImage};
use crate::error::Error;
use crate::layer::{
    cycle,
    same_cache,
    Computed,
    Element,
    ElementRef,
    Inputs,
    InteractiveLayer,
    Layer,
};

verus! {

struct Cache {}

/// A layer together with what a host needs to lay it out.
///
/// `T` names the output type that decides how the layer is shown, so that
/// layers with the same kind of output are shown alike, whatever they do.
pub struct InterLayer<A: Layer, T> {
    layer: A,
    cache: Cache,
    width: Option<usize>,
    height: Option<usize>,
    output_type: PhantomData<T>,
}

impl<A: Layer, T> InterLayer<A, T> {
    /// The layer inside.
    pub closed spec fn inner(&self) -> A {
        self.layer
    }

    /// The width and height to lay the layer out with, where they are known.
    pub closed spec fn extent(&self) -> (Option<usize>, Option<usize>) {
        (self.width, self.height)
    }

    pub fn new(layer: A) -> (made: Self)
        ensures
            made.inner() == layer,
            made.extent() == (None::<usize>, None::<usize>),
    {
        InterLayer { layer, cache: Cache {  }, width: None, height: None, output_type: PhantomData }
    }

    pub fn width(&self) -> (width: Option<usize>)
        ensures
            width == self.extent().0,
    {
        self.width
    }

    pub fn height(&self) -> (height: Option<usize>)
        ensures
            height == self.extent().1,
    {
        self.height
    }
}

impl<A: Layer, T> InterLayer<A, T> {
    /// The width and height to lay the layer out with: each is 0 where it is
    /// not known.
    pub fn layout_size(&self) -> (size: (usize, usize))
        ensures
            size.0 == (match self.extent().0 {
                Some(width) => width,
                None => 0,
            }),
            size.1 == (match self.extent().1 {
                Some(height) => height,
                None => 0,
            }),
    {
        let width = match self.width() {
            Some(width) => width,
            None => 0,
        };
        let height = match self.height() {
            Some(height) => height,
            None => 0,
        };
        (width, height)
    }
}

/// Whether `picture` shows `value`: a handle with the bytes of an RGBA image
/// and that image's width and height, or nothing for anything else.
pub open spec fn shows(
    value: Option<Element>,
    picture: Option<(iced_native::widget::image::Handle, usize, usize)>,
) -> bool {
    match value {
        Some(Element::Rgba(image)) => {
            &&& picture matches Some((handle, width, height))
            &&& handle_pixels(handle) == bgra(image@.pixels)
            &&& handle_extent(handle) == seq![width as u32, height as u32]
            &&& width == image@.width
            &&& height == image@.height
        },
        _ => picture is None,
    }
}

impl<A: Layer> InterLayer<A, RgbaImage> {
    /// What there is to draw of the layer: where its cached output is an RGBA
    /// image, a handle for that image with the image's width and height, to
    /// be drawn at the origin. Nothing where it has no output or another one.
    pub fn picture(&self) -> (picture: Option<(iced_native::widget::image::Handle, usize, usize)>)
        ensures
            exists|value: Option<Element>| #[trigger] self.holds(value) && shows(value, picture),
    {
        let shared = self.output();
        match shared {
            Some(ElementRef::Rgba(image)) => Some((image.handle(), image.width(), image.height())),
            _ => None,
        }
    }
}

impl<A: Layer, T> Layer for InterLayer<A, T> {
    open spec fn holds(&self, value: Option<Element>) -> bool {
        self.inner().holds(value)
    }

    open spec fn computes(&self, inputs: Seq<Option<Element>>, result: Result<Computed, Error>) -> bool {
        self.inner().computes(inputs, result)
    }

    open spec fn commits(&self, output: Option<Element>, result: Result<(), Error>) -> bool {
        self.inner().commits(output, result)
    }

    open spec fn supports(&self, state_updates: Option<Element>) -> bool {
        self.inner().supports(state_updates)
    }

    fn compute(&self, input: &Inputs<'_>) -> (result: Result<Computed, Error>) {
        self.layer.compute(input)
    }

    fn update(&mut self, output: Option<Element>, state_updates: Option<Element>) -> (result: Result<(), Error>)
        ensures
            final(self).extent() == old(self).extent(),
    {
        self.layer.update(output, state_updates)
    }

    fn output(&self) -> (shared: Option<ElementRef<'_>>) {
        self.layer.output()
    }
}

/// An interactive layer goes through the evaluation cycles of the layer
/// inside: a cycle that takes an interactive layer from `before` to `after`
/// takes the layer inside `before` to the layer inside `after`, on the same
/// inputs and with the same result.
pub proof fn lemma_cycle_inside<A: Layer, T>(
    before: InterLayer<A, T>,
    inputs: Seq<Option<Element>>,
    result: Result<(), Error>,
    after: InterLayer<A, T>,
)
    requires
        cycle(before, inputs, result, after),
    ensures
        cycle(before.inner(), inputs, result, after.inner()),
{
    if same_cache(&before, &after) {
        assert forall|value: Option<Element>| #[trigger]
            after.inner().holds(value) == before.inner().holds(value) by {
            assert(after.holds(value) == before.holds(value));
        }
    }
}

impl<A: Layer, T> InteractiveLayer for InterLayer<A, T> {

}

} // verus!
