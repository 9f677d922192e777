//! Pixel tuples: fixed sets of channels, addressed by name.

use vstd::prelude::*;

verus! {

/// A pixel of three channels: red, green and blue.
#[derive(Copy, Debug, PartialEq, Eq)]
pub struct RGB<T> {
    r: T,
    g: T,
    b: T,
}

impl<T: Copy> Clone for RGB<T> {
    fn clone(&self) -> (copy: Self)
        ensures
            copy == *self,
    {
        *self
    }
}

impl<T: Copy> RGB<T> {
    /// The channels in the order red, green, blue.
    pub closed spec fn channels(&self) -> Seq<T> {
        seq![self.r, self.g, self.b]
    }

    pub fn new(r: T, g: T, b: T) -> (pixel: Self)
        ensures
            pixel.channels() == seq![r, g, b],
    {
        RGB { r, g, b }
    }

    pub fn r(&self) -> (r: T)
        ensures
            r == self.channels()[0],
    {
        self.r
    }

    pub fn g(&self) -> (g: T)
        ensures
            g == self.channels()[1],
    {
        self.g
    }

    pub fn b(&self) -> (b: T)
        ensures
            b == self.channels()[2],
    {
        self.b
    }

    pub fn data(&self) -> (data: [T; 3])
        ensures
            data@ == self.channels(),
    {
        [self.r, self.g, self.b]
    }

    /// A pixel is its channels: two pixels with the same channels are the same
    /// pixel, and a pixel has exactly three of them.
    pub proof fn channels_determine(self, other: Self)
        ensures
            self.channels().len() == 3,
            self.channels() == other.channels() ==> self == other,
    {
    }
}

/// A pixel of four channels: red, green, blue and alpha.
#[derive(Copy, Debug, PartialEq, Eq)]
pub struct RGBA<T> {
    r: T,
    g: T,
    b: T,
    a: T,
}

impl<T: Copy> Clone for RGBA<T> {
    fn clone(&self) -> (copy: Self)
        ensures
            copy == *self,
    {
        *self
    }
}

impl<T: Copy> RGBA<T> {
    /// The channels in the order red, green, blue, alpha.
    pub closed spec fn channels(&self) -> Seq<T> {
        seq![self.r, self.g, self.b, self.a]
    }

    pub fn new(r: T, g: T, b: T, a: T) -> (pixel: Self)
        ensures
            pixel.channels() == seq![r, g, b, a],
    {
        RGBA { r, g, b, a }
    }

    pub fn r(&self) -> (r: T)
        ensures
            r == self.channels()[0],
    {
        self.r
    }

    pub fn g(&self) -> (g: T)
        ensures
            g == self.channels()[1],
    {
        self.g
    }

    pub fn b(&self) -> (b: T)
        ensures
            b == self.channels()[2],
    {
        self.b
    }

    pub fn a(&self) -> (a: T)
        ensures
            a == self.channels()[3],
    {
        self.a
    }

    pub fn data(&self) -> (data: [T; 4])
        ensures
            data@ == self.channels(),
    {
        [self.r, self.g, self.b, self.a]
    }

    /// A pixel is its channels: two pixels with the same channels are the same
    /// pixel, and a pixel has exactly four of them.
    pub proof fn channels_determine(self, other: Self)
        ensures
            self.channels().len() == 4,
            self.channels() == other.channels() ==> self == other,
    {
    }
}

} // verus!
