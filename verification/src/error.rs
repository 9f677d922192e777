use vstd::prelude::*;

verus! {

/// Names the concrete type behind a type-erased element.
#[derive(Clone, Copy, Debug, PartialEq, Eq, Structural)]
pub enum ElementKind {
    Binary,
    BinaryAlpha,
    Gray,
    GrayAlpha,
    Rgb,
    Rgba,
}

impl ElementKind {
    /// The name of the type.
    pub open spec fn name(self) -> Seq<char> {
        match self {
            ElementKind::Binary => "klex::element::BinaryImage"@,
            ElementKind::BinaryAlpha => "klex::element::BinaryAlphaImage"@,
            ElementKind::Gray => "klex::element::GrayImage"@,
            ElementKind::GrayAlpha => "klex::element::GrayAlphaImage"@,
            ElementKind::Rgb => "klex::element::RgbImage"@,
            ElementKind::Rgba => "klex::element::RgbaImage"@,
        }
    }

    /// The name of the type, as a message shows it.
    pub fn label(&self) -> (name: &'static str)
        ensures
            name@ == self.name(),
    {
        match self {
            ElementKind::Binary => "klex::element::BinaryImage",
            ElementKind::BinaryAlpha => "klex::element::BinaryAlphaImage",
            ElementKind::Gray => "klex::element::GrayImage",
            ElementKind::GrayAlpha => "klex::element::GrayAlphaImage",
            ElementKind::Rgb => "klex::element::RgbImage",
            ElementKind::Rgba => "klex::element::RgbaImage",
        }
    }
}

/// Why an operation of the pipeline failed.
#[derive(Debug, PartialEq, Eq)]
pub enum Error {
    /// A buffer's actual shape disagrees with the declared one. Both shapes are
    /// given as `(rows, columns)`; a flat buffer counts as a single row.
    ShapeMismatch { actual: (usize, usize), declared: (usize, usize) },
    /// A layer needs the input that arrives over its incoming edge number
    /// `edge`, and there is none: the parent has no output yet, or the layer
    /// has no such edge.
    MissingInput { edge: usize },
    /// A layer expects a value of one type and was handed one of another.
    /// `at_edge` is the number of the incoming edge over which the value
    /// arrived; it is `None` for a value handed over directly.
    TypeMismatch { expected: ElementKind, found: ElementKind, at_edge: Option<usize> },
    /// The image codec could not read a source file.
    DecodeError { reason: String },
}

} // verus!
