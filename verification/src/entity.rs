//! Entities in flat form: a binary image as a plain vector of pixels beside
//! its width and height, with nothing checked between them.

use vstd::prelude::*;

verus! {

/// A line. So far it is a name, and holds nothing.
pub struct Line {}

/// A point. So far it is a name, and holds nothing.
pub struct Point {}

/// A binary image in flat form.
pub struct BinaryImage {
    width: u32,
    height: u32,
    data: Vec<bool>,
}

/// What a flat binary image is: the width, the height and the pixels it was
/// made of.
pub struct BinaryImageView {
    pub width: u32,
    pub height: u32,
    pub data: Seq<bool>,
}

impl View for BinaryImage {
    type V = BinaryImageView;

    closed spec fn view(&self) -> BinaryImageView {
        BinaryImageView { width: self.width, height: self.height, data: self.data@ }
    }
}

impl BinaryImage {
    pub fn new(width: u32, height: u32, data: Vec<bool>) -> (image: Self)
        ensures
            image@ == (BinaryImageView { width, height, data: data@ }),
    {
        Self { width, height, data }
    }

    pub fn width(&self) -> (width: u32)
        ensures
            width == self@.width,
    {
        self.width
    }

    pub fn height(&self) -> (height: u32)
        ensures
            height == self@.height,
    {
        self.height
    }

    pub fn data(&self) -> (data: &Vec<bool>)
        ensures
            data@ == self@.data,
    {
        &self.data
    }
}

} // verus!
