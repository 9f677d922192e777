//! The contract every node of the pipeline fulfils, and the values that move
//! along its edges.
//!
//! A layer computes a new output from the outputs of its parents, and keeps
//! the most recent one in a cached slot. Outputs of different layers have
//! different types, so on an edge a value travels as an `Element`, which
//! records which type it holds; the layer that receives it asks for the type
//! it expects and fails where another one arrives.

pub mod interactive;
pub mod primitive;

use vstd::prelude::*;
use crate::element::{
    BinaryAlphaImage,
    BinaryImage,
    GrayAlphaImage,
    GrayImage,
    RgbImage,
    RgbaImage,
};
use crate::error::{ElementKind, Error};

verus! {

/// A value of any of the types that layers produce.
pub enum Element {
    Binary(BinaryImage),
    BinaryAlpha(BinaryAlphaImage),
    Gray(GrayImage),
    GrayAlpha(GrayAlphaImage),
    Rgb(RgbImage),
    Rgba(RgbaImage),
}

impl Element {
    /// The type of the value held.
    pub open spec fn kind(self) -> ElementKind {
        match self {
            Element::Binary(_) => ElementKind::Binary,
            Element::BinaryAlpha(_) => ElementKind::BinaryAlpha,
            Element::Gray(_) => ElementKind::Gray,
            Element::GrayAlpha(_) => ElementKind::GrayAlpha,
            Element::Rgb(_) => ElementKind::Rgb,
            Element::Rgba(_) => ElementKind::Rgba,
        }
    }

    /// A read-only reference to the value held, with its type.
    pub fn as_ref(&self) -> (shared: ElementRef<'_>)
        ensures
            shared.erased() == *self,
    {
        match self {
            Element::Binary(image) => ElementRef::Binary(image),
            Element::BinaryAlpha(image) => ElementRef::BinaryAlpha(image),
            Element::Gray(image) => ElementRef::Gray(image),
            Element::GrayAlpha(image) => ElementRef::GrayAlpha(image),
            Element::Rgb(image) => ElementRef::Rgb(image),
            Element::Rgba(image) => ElementRef::Rgba(image),
        }
    }
}

/// A read-only reference to a value of any of the types that layers produce.
#[derive(Clone, Copy)]
pub enum ElementRef<'a> {
    Binary(&'a BinaryImage),
    BinaryAlpha(&'a BinaryAlphaImage),
    Gray(&'a GrayImage),
    GrayAlpha(&'a GrayAlphaImage),
    Rgb(&'a RgbImage),
    Rgba(&'a RgbaImage),
}

impl<'a> ElementRef<'a> {
    /// The value referred to.
    pub open spec fn erased(self) -> Element {
        match self {
            ElementRef::Binary(image) => Element::Binary(*image),
            ElementRef::BinaryAlpha(image) => Element::BinaryAlpha(*image),
            ElementRef::Gray(image) => Element::Gray(*image),
            ElementRef::GrayAlpha(image) => Element::GrayAlpha(*image),
            ElementRef::Rgb(image) => Element::Rgb(*image),
            ElementRef::Rgba(image) => Element::Rgba(*image),
        }
    }

    /// The type of the value referred to.
    pub fn kind(&self) -> (kind: ElementKind)
        ensures
            kind == self.erased().kind(),
    {
        match self {
            ElementRef::Binary(_) => ElementKind::Binary,
            ElementRef::BinaryAlpha(_) => ElementKind::BinaryAlpha,
            ElementRef::Gray(_) => ElementKind::Gray,
            ElementRef::GrayAlpha(_) => ElementKind::GrayAlpha,
            ElementRef::Rgb(_) => ElementKind::Rgb,
            ElementRef::Rgba(_) => ElementKind::Rgba,
        }
    }
}

/// The value that a slot refers to, or nothing for an empty slot.
pub open spec fn erased_slot(slot: Option<ElementRef<'_>>) -> Option<Element> {
    match slot {
        Some(shared) => Some(shared.erased()),
        None => None,
    }
}

/// The values that a slice of input slots refers to, slot by slot.
pub open spec fn erased_all(input: Seq<Option<ElementRef<'_>>>) -> Seq<Option<Element>> {
    input.map_values(|slot: Option<ElementRef<'_>>| erased_slot(slot))
}

/// A type of value that can travel as an `Element`.
pub trait Typed: Sized {
    /// The kind that marks this type on an edge.
    spec fn type_kind() -> ElementKind;

    /// This value as an element.
    spec fn erased(self) -> Element;

    /// The value of this type that `element` holds, if it holds one.
    spec fn recovered(element: Element) -> Option<Self>;

    /// Erasing and recovering undo each other, and an element holds a value of
    /// this type exactly when it is of this type's kind.
    proof fn erasure(value: Self, element: Element)
        ensures
            value.erased().kind() == Self::type_kind(),
            Self::recovered(value.erased()) == Some(value),
            Self::recovered(element) is Some <==> element.kind() == Self::type_kind(),
            Self::recovered(element) matches Some(held) ==> held.erased() == element,
    ;

    fn kind() -> (kind: ElementKind)
        ensures
            kind == Self::type_kind(),
    ;

    fn erase(self) -> (element: Element)
        ensures
            element == self.erased(),
    ;

    /// The value that `element` holds, or the element back where it holds a
    /// value of another type.
    fn downcast(element: Element) -> (held: Result<Self, Element>)
        ensures
            held == match Self::recovered(element) {
                Some(value) => Ok::<Self, Element>(value),
                None => Err::<Self, Element>(element),
            },
    ;

    /// A reference to the value that `shared` refers to, if it is of this
    /// type.
    fn downcast_ref<'a>(shared: ElementRef<'a>) -> (held: Option<&'a Self>)
        ensures
            held == match Self::recovered(shared.erased()) {
                Some(value) => Some(&value),
                None => None,
            },
    ;

    fn as_element(&self) -> (shared: ElementRef<'_>)
        ensures
            shared.erased() == self.erased(),
    ;
}

/// What a layer works with: the current outputs of its parents, or nothing
/// for a parent that has none yet. Slot `i` belongs to the incoming edge that
/// was added as number `i`.
pub type Inputs<'a> = [Option<ElementRef<'a>>];

/// What `compute` produces: the new output and the incremental state patch,
/// each of which may be absent.
pub type Computed = (Option<Element>, Option<Element>);

/// The contract of a node.
///
/// The four spec functions describe a layer: what its cached slot holds, what
/// `compute` may return on given inputs, how `update` may end on a given
/// output, and which state patches `update` can apply. The first changes with
/// `update`; the other three are the layer's fixed rules.
///
/// Each of the four holds of everything unless a layer says otherwise, and
/// then the contracts below promise nothing of the layer. The layers of this
/// library say exactly what they do.
pub trait Layer {
    /// Whether the cached output slot holds `value`: an element, or nothing.
    open spec fn holds(&self, value: Option<Element>) -> bool {
        true
    }

    /// Whether `compute` may return `result` when its input slots hold
    /// `inputs`.
    open spec fn computes(&self, inputs: Seq<Option<Element>>, result: Result<Computed, Error>) -> bool {
        true
    }

    /// Whether `update` may end with `result` when it is handed `output`.
    open spec fn commits(&self, output: Option<Element>, result: Result<(), Error>) -> bool {
        true
    }

    /// Whether `update` can apply `state_updates`.
    open spec fn supports(&self, state_updates: Option<Element>) -> bool {
        true
    }

    /// Computes a new output, and possibly a state patch, from the inputs,
    /// without changing the layer.
    fn compute(&self, input: &Inputs<'_>) -> (result: Result<Computed, Error>)
        ensures
            self.computes(erased_all(input@), result),
            result matches Ok(computed) ==> self.supports(computed.1),
    ;

    /// Commits `output` to the cached slot, replacing what was there, and
    /// applies the state patch. On failure the slot holds what it held.
    fn update(&mut self, output: Option<Element>, state_updates: Option<Element>) -> (result: Result<(), Error>)
        requires
            old(self).supports(state_updates),
        ensures
            old(self).commits(output, result),
            result is Ok ==> final(self).holds(output),
            result is Err ==> forall|value: Option<Element>| #[trigger]
                final(self).holds(value) == old(self).holds(value),
            forall|inputs: Seq<Option<Element>>, result: Result<Computed, Error>| #[trigger]
                final(self).computes(inputs, result) == old(self).computes(inputs, result),
            forall|output: Option<Element>, result: Result<(), Error>| #[trigger]
                final(self).commits(output, result) == old(self).commits(output, result),
            forall|state_updates: Option<Element>| #[trigger]
                final(self).supports(state_updates) == old(self).supports(state_updates),
    ;

    /// The cached output, or nothing if none was ever committed.
    fn output(&self) -> (shared: Option<ElementRef<'_>>)
        ensures
            self.holds(erased_slot(shared)),
    ;
}

/// Whether two states of a layer follow the same rules: they compute the same
/// results, end their updates alike and support the same patches.
pub open spec fn same_rules<L: Layer + ?Sized>(before: &L, after: &L) -> bool {
    &&& forall|inputs: Seq<Option<Element>>, result: Result<Computed, Error>| #[trigger]
        after.computes(inputs, result) == before.computes(inputs, result)
    &&& forall|output: Option<Element>, result: Result<(), Error>| #[trigger]
        after.commits(output, result) == before.commits(output, result)
    &&& forall|state_updates: Option<Element>| #[trigger]
        after.supports(state_updates) == before.supports(state_updates)
}

/// Whether two states of a layer hold the same in their cached slots.
pub open spec fn same_cache<L: Layer + ?Sized>(before: &L, after: &L) -> bool {
    forall|value: Option<Element>| #[trigger] after.holds(value) == before.holds(value)
}

/// A layer that a host can also show and interact with. What showing it takes
/// is the host's business; the pipeline asks only for the layer contract.
pub trait InteractiveLayer: Layer {

}

impl<L: Layer + ?Sized> Layer for Box<L> {
    open spec fn holds(&self, value: Option<Element>) -> bool {
        (**self).holds(value)
    }

    open spec fn computes(&self, inputs: Seq<Option<Element>>, result: Result<Computed, Error>) -> bool {
        (**self).computes(inputs, result)
    }

    open spec fn commits(&self, output: Option<Element>, result: Result<(), Error>) -> bool {
        (**self).commits(output, result)
    }

    open spec fn supports(&self, state_updates: Option<Element>) -> bool {
        (**self).supports(state_updates)
    }

    fn compute(&self, input: &Inputs<'_>) -> (result: Result<Computed, Error>) {
        (**self).compute(input)
    }

    fn update(&mut self, output: Option<Element>, state_updates: Option<Element>) -> (result: Result<(), Error>) {
        (**self).update(output, state_updates)
    }

    fn output(&self) -> (shared: Option<ElementRef<'_>>) {
        (**self).output()
    }
}

impl<L: InteractiveLayer + ?Sized> InteractiveLayer for Box<L> {

}

/// What a slot of type `B` holds, as an element.
pub open spec fn slot_value<B: Typed>(slot: Option<B>) -> Option<Element> {
    match slot {
        Some(value) => Some(value.erased()),
        None => None,
    }
}

/// The input of a layer that works on the output of a single parent, which
/// must be of type `A`: the first slot's value, `MissingInput` where there is
/// no first slot or it is empty, `TypeMismatch` where it holds a value of
/// another type.
pub open spec fn required_input<A: Typed>(inputs: Seq<Option<Element>>) -> Result<A, Error> {
    if inputs.len() == 0 {
        Err(Error::MissingInput { edge: 0 })
    } else {
        match inputs[0] {
            None => Err(Error::MissingInput { edge: 0 }),
            Some(element) => match A::recovered(element) {
                Some(value) => Ok(value),
                None => Err(
                    Error::TypeMismatch {
                        expected: A::type_kind(),
                        found: element.kind(),
                        at_edge: Some(0usize),
                    },
                ),
            },
        }
    }
}

/// How committing `output` to a slot of type `B` ends: well for an absent
/// output or one of type `B`, with `TypeMismatch` for any other.
pub open spec fn committed<B: Typed>(output: Option<Element>) -> Result<(), Error> {
    match output {
        Some(element) => if element.kind() == B::type_kind() {
            Ok(())
        } else {
            Err(
                Error::TypeMismatch {
                    expected: B::type_kind(),
                    found: element.kind(),
                    at_edge: None,
                },
            )
        },
        None => Ok(()),
    }
}

/// The result of a layer's own computation, as `Layer::compute` returns it:
/// the output as an element, and no state patch.
pub fn computed<B: Typed>(output: Result<B, Error>) -> (result: Result<Computed, Error>)
    ensures
        result == match output {
            Ok(value) => Ok::<Computed, Error>((Some(value.erased()), None)),
            Err(failure) => Err::<Computed, Error>(failure),
        },
{
    match output {
        Ok(value) => Ok((Some(value.erase()), None)),
        Err(failure) => Err(failure),
    }
}

/// Whether one evaluation cycle on `inputs`, a `compute` and on its success
/// an `update` with what it returned, may take a layer from the state `before`
/// to the state `after` and end with `result`.
///
/// A cycle succeeds when `compute` succeeds and `update` commits the output,
/// which is then what the slot holds. It fails with the failure of `compute`,
/// and the layer is then as it was; or else with the one of `update`, and the
/// slot then holds what it held.
pub open spec fn cycle<L: Layer>(
    before: L,
    inputs: Seq<Option<Element>>,
    result: Result<(), Error>,
    after: L,
) -> bool {
    match result {
        Ok(_) => exists|computed: Computed|
            {
                &&& #[trigger] before.computes(inputs, Ok(computed))
                &&& before.commits(computed.0, result)
                &&& after.holds(computed.0)
            },
        Err(failure) => {
            ||| before.computes(inputs, Err(failure)) && after == before
            ||| exists|computed: Computed|
                {
                    &&& #[trigger] before.computes(inputs, Ok(computed))
                    &&& before.commits(computed.0, Err(failure))
                    &&& same_cache(&before, &after)
                }
        },
    }
}

/// Ends an evaluation cycle of `layer`, given what its `compute` returned: the
/// failure of `compute` is handed on and the layer left alone; what it
/// computed is given to the layer's `update`, whose result is handed on.
pub fn conclude<L: Layer>(layer: &mut L, computed: Result<Computed, Error>) -> (result: Result<(), Error>)
    requires
        computed matches Ok(made) ==> old(layer).supports(made.1),
    ensures
        computed matches Err(failure) ==> result == Err::<(), Error>(failure) && *final(layer)
            == *old(layer),
        computed matches Ok(made) ==> {
            &&& old(layer).commits(made.0, result)
            &&& result is Ok ==> final(layer).holds(made.0)
            &&& result is Err ==> same_cache(old(layer), final(layer))
        },
        same_rules(old(layer), final(layer)),
{
    match computed {
        Err(failure) => Err(failure),
        Ok((output, state_updates)) => layer.update(output, state_updates),
    }
}

/// What `conclude` does is one evaluation cycle: where `compute` may return
/// `computed` on `inputs`, and `conclude` takes the layer from `before` to
/// `after` with `result`, a cycle on `inputs` may do the same.
pub proof fn lemma_conclude_is_cycle<L: Layer>(
    before: L,
    inputs: Seq<Option<Element>>,
    computed: Result<Computed, Error>,
    result: Result<(), Error>,
    after: L,
)
    requires
        before.computes(inputs, computed),
        computed matches Err(failure) ==> result == Err::<(), Error>(failure) && after == before,
        computed matches Ok(made) ==> {
            &&& before.commits(made.0, result)
            &&& result is Ok ==> after.holds(made.0)
            &&& result is Err ==> same_cache(&before, &after)
        },
    ensures
        cycle(before, inputs, result, after),
{
}

/// Whether `layer` works on a single input of type `A`: where that input is
/// missing or of another type, its `compute` fails with the failure that
/// `required_input` names.
pub open spec fn needs_input<L: Layer, A: Typed>(layer: L) -> bool {
    forall|inputs: Seq<Option<Element>>, result: Result<Computed, Error>|
        #[trigger] layer.computes(inputs, result) && required_input::<A>(inputs) is Err ==> result
            == Err::<Computed, Error>(required_input::<A>(inputs)->Err_0)
}

/// A layer that is evaluated before its parent has an output fails with
/// `MissingInput`, and is then as it was: where a layer works on a single
/// input, and there is no first input slot or the slot is empty, every
/// evaluation cycle ends with `MissingInput` for edge 0 and changes nothing.
pub proof fn lemma_missing_input_fails<L: Layer, A: Typed>(
    before: L,
    inputs: Seq<Option<Element>>,
    result: Result<(), Error>,
    after: L,
)
    requires
        needs_input::<L, A>(before),
        cycle(before, inputs, result, after),
        inputs.len() == 0 || inputs[0] is None,
    ensures
        result == Err::<(), Error>(Error::MissingInput { edge: 0 }),
        after == before,
{
    lemma_unmet_input_fails::<L, A>(before, inputs, result, after);
}

/// A layer wired to a parent whose output is of another type than it expects
/// fails with `TypeMismatch`, naming the expected type and the type found, and
/// is then as it was: where a layer works on a single input of type `A`, and
/// the first input slot holds an element of another kind, every evaluation
/// cycle ends with `TypeMismatch` at edge 0 and changes nothing.
pub proof fn lemma_mistyped_input_fails<L: Layer, A: Typed>(
    before: L,
    inputs: Seq<Option<Element>>,
    result: Result<(), Error>,
    after: L,
)
    requires
        needs_input::<L, A>(before),
        cycle(before, inputs, result, after),
        inputs.len() > 0,
        inputs[0] matches Some(element) && element.kind() != A::type_kind(),
    ensures
        result == Err::<(), Error>(
            Error::TypeMismatch {
                expected: A::type_kind(),
                found: inputs[0]->Some_0.kind(),
                at_edge: Some(0usize),
            },
        ),
        after == before,
{
    A::erasure(arbitrary(), inputs[0]->Some_0);
    lemma_unmet_input_fails::<L, A>(before, inputs, result, after);
}

/// Where a layer works on a single input of type `A` and `inputs` do not
/// bring one, every evaluation cycle ends with the failure that
/// `required_input` names and changes nothing.
pub proof fn lemma_unmet_input_fails<L: Layer, A: Typed>(
    before: L,
    inputs: Seq<Option<Element>>,
    result: Result<(), Error>,
    after: L,
)
    requires
        needs_input::<L, A>(before),
        cycle(before, inputs, result, after),
        required_input::<A>(inputs) is Err,
    ensures
        result == Err::<(), Error>(required_input::<A>(inputs)->Err_0),
        after == before,
{
}

/// Takes the single input of type `A` out of the input slots.
pub fn single_input<'a, A: Typed>(input: &Inputs<'a>) -> (taken: Result<&'a A, Error>)
    ensures
        taken matches Ok(value) ==> required_input::<A>(erased_all(input@)) == Ok::<A, Error>(
            *value,
        ),
        taken matches Err(failure) ==> required_input::<A>(erased_all(input@)) == Err::<A, Error>(
            failure,
        ),
{
    if input.len() == 0 {
        return Err(Error::MissingInput { edge: 0 });
    }
    match input[0] {
        None => Err(Error::MissingInput { edge: 0 }),
        Some(shared) => match A::downcast_ref(shared) {
            Some(value) => Ok(value),
            None => Err(
                Error::TypeMismatch { expected: A::kind(), found: shared.kind(), at_edge: Some(0) },
            ),
        },
    }
}

/// Commits `output` to a slot of type `B`: the slot then holds the output, or
/// nothing where the output is absent. An output of another type is turned
/// down with `TypeMismatch`, and the slot keeps what it held.
pub fn commit<B: Typed>(slot: &mut Option<B>, output: Option<Element>) -> (result: Result<(), Error>)
    ensures
        result == committed::<B>(output),
        slot_value(*final(slot)) == if result is Ok {
            output
        } else {
            slot_value(*old(slot))
        },
{
    match output {
        None => {
            *slot = None;
            Ok(())
        },
        Some(element) => {
            let found = element.as_ref().kind();
            match B::downcast(element) {
                Ok(value) => {
                    proof {
                        B::erasure(value, element);
                    }
                    *slot = Some(value);
                    Ok(())
                },
                Err(_) => {
                    proof {
                        B::erasure(arbitrary(), element);
                    }
                    Err(Error::TypeMismatch { expected: B::kind(), found, at_edge: None })
                },
            }
        },
    }
}

/// A reference to what a slot of type `B` holds, as an element.
pub fn shared_output<B: Typed>(slot: &Option<B>) -> (shared: Option<ElementRef<'_>>)
    ensures
        erased_slot(shared) == slot_value(*slot),
{
    match slot {
        Some(value) => Some(value.as_element()),
        None => None,
    }
}

impl Typed for BinaryImage {
    open spec fn type_kind() -> ElementKind {
        ElementKind::Binary
    }

    open spec fn erased(self) -> Element {
        Element::Binary(self)
    }

    open spec fn recovered(element: Element) -> Option<Self> {
        match element {
            Element::Binary(image) => Some(image),
            _ => None,
        }
    }

    proof fn erasure(value: Self, element: Element) {
    }

    fn kind() -> (kind: ElementKind) {
        ElementKind::Binary
    }

    fn erase(self) -> (element: Element) {
        Element::Binary(self)
    }

    fn downcast(element: Element) -> (held: Result<Self, Element>) {
        match element {
            Element::Binary(image) => Ok(image),
            other => Err(other),
        }
    }

    fn downcast_ref<'a>(shared: ElementRef<'a>) -> (held: Option<&'a Self>) {
        match shared {
            ElementRef::Binary(image) => Some(image),
            _ => None,
        }
    }

    fn as_element(&self) -> (shared: ElementRef<'_>) {
        ElementRef::Binary(self)
    }
}

impl Typed for BinaryAlphaImage {
    open spec fn type_kind() -> ElementKind {
        ElementKind::BinaryAlpha
    }

    open spec fn erased(self) -> Element {
        Element::BinaryAlpha(self)
    }

    open spec fn recovered(element: Element) -> Option<Self> {
        match element {
            Element::BinaryAlpha(image) => Some(image),
            _ => None,
        }
    }

    proof fn erasure(value: Self, element: Element) {
    }

    fn kind() -> (kind: ElementKind) {
        ElementKind::BinaryAlpha
    }

    fn erase(self) -> (element: Element) {
        Element::BinaryAlpha(self)
    }

    fn downcast(element: Element) -> (held: Result<Self, Element>) {
        match element {
            Element::BinaryAlpha(image) => Ok(image),
            other => Err(other),
        }
    }

    fn downcast_ref<'a>(shared: ElementRef<'a>) -> (held: Option<&'a Self>) {
        match shared {
            ElementRef::BinaryAlpha(image) => Some(image),
            _ => None,
        }
    }

    fn as_element(&self) -> (shared: ElementRef<'_>) {
        ElementRef::BinaryAlpha(self)
    }
}

impl Typed for GrayImage {
    open spec fn type_kind() -> ElementKind {
        ElementKind::Gray
    }

    open spec fn erased(self) -> Element {
        Element::Gray(self)
    }

    open spec fn recovered(element: Element) -> Option<Self> {
        match element {
            Element::Gray(image) => Some(image),
            _ => None,
        }
    }

    proof fn erasure(value: Self, element: Element) {
    }

    fn kind() -> (kind: ElementKind) {
        ElementKind::Gray
    }

    fn erase(self) -> (element: Element) {
        Element::Gray(self)
    }

    fn downcast(element: Element) -> (held: Result<Self, Element>) {
        match element {
            Element::Gray(image) => Ok(image),
            other => Err(other),
        }
    }

    fn downcast_ref<'a>(shared: ElementRef<'a>) -> (held: Option<&'a Self>) {
        match shared {
            ElementRef::Gray(image) => Some(image),
            _ => None,
        }
    }

    fn as_element(&self) -> (shared: ElementRef<'_>) {
        ElementRef::Gray(self)
    }
}

impl Typed for GrayAlphaImage {
    open spec fn type_kind() -> ElementKind {
        ElementKind::GrayAlpha
    }

    open spec fn erased(self) -> Element {
        Element::GrayAlpha(self)
    }

    open spec fn recovered(element: Element) -> Option<Self> {
        match element {
            Element::GrayAlpha(image) => Some(image),
            _ => None,
        }
    }

    proof fn erasure(value: Self, element: Element) {
    }

    fn kind() -> (kind: ElementKind) {
        ElementKind::GrayAlpha
    }

    fn erase(self) -> (element: Element) {
        Element::GrayAlpha(self)
    }

    fn downcast(element: Element) -> (held: Result<Self, Element>) {
        match element {
            Element::GrayAlpha(image) => Ok(image),
            other => Err(other),
        }
    }

    fn downcast_ref<'a>(shared: ElementRef<'a>) -> (held: Option<&'a Self>) {
        match shared {
            ElementRef::GrayAlpha(image) => Some(image),
            _ => None,
        }
    }

    fn as_element(&self) -> (shared: ElementRef<'_>) {
        ElementRef::GrayAlpha(self)
    }
}

impl Typed for RgbImage {
    open spec fn type_kind() -> ElementKind {
        ElementKind::Rgb
    }

    open spec fn erased(self) -> Element {
        Element::Rgb(self)
    }

    open spec fn recovered(element: Element) -> Option<Self> {
        match element {
            Element::Rgb(image) => Some(image),
            _ => None,
        }
    }

    proof fn erasure(value: Self, element: Element) {
    }

    fn kind() -> (kind: ElementKind) {
        ElementKind::Rgb
    }

    fn erase(self) -> (element: Element) {
        Element::Rgb(self)
    }

    fn downcast(element: Element) -> (held: Result<Self, Element>) {
        match element {
            Element::Rgb(image) => Ok(image),
            other => Err(other),
        }
    }

    fn downcast_ref<'a>(shared: ElementRef<'a>) -> (held: Option<&'a Self>) {
        match shared {
            ElementRef::Rgb(image) => Some(image),
            _ => None,
        }
    }

    fn as_element(&self) -> (shared: ElementRef<'_>) {
        ElementRef::Rgb(self)
    }
}

impl Typed for RgbaImage {
    open spec fn type_kind() -> ElementKind {
        ElementKind::Rgba
    }

    open spec fn erased(self) -> Element {
        Element::Rgba(self)
    }

    open spec fn recovered(element: Element) -> Option<Self> {
        match element {
            Element::Rgba(image) => Some(image),
            _ => None,
        }
    }

    proof fn erasure(value: Self, element: Element) {
    }

    fn kind() -> (kind: ElementKind) {
        ElementKind::Rgba
    }

    fn erase(self) -> (element: Element) {
        Element::Rgba(self)
    }

    fn downcast(element: Element) -> (held: Result<Self, Element>) {
        match element {
            Element::Rgba(image) => Ok(image),
            other => Err(other),
        }
    }

    fn downcast_ref<'a>(shared: ElementRef<'a>) -> (held: Option<&'a Self>) {
        match shared {
            ElementRef::Rgba(image) => Some(image),
            _ => None,
        }
    }

    fn as_element(&self) -> (shared: ElementRef<'_>) {
        ElementRef::Rgba(self)
    }
}

} // verus!
