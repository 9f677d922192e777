use std::cell::{Cell, RefCell};
use std::rc::Rc;

use iced_native::widget::image::Data;
use klex::element::pixel::RGBA;
use klex::element::{BinaryImage, GrayImage, RgbaImage};
use klex::error::{ElementKind, Error};
use klex::layer::interactive::InterLayer;
use klex::layer::primitive::{Comparison, Convert, Threshold};
use klex::layer::{Computed, Element, ElementRef, Inputs, InteractiveLayer, Layer};
use klex::layer_graph::InteractiveLayerGraph;

type Pipeline = InteractiveLayerGraph<Box<dyn InteractiveLayer>>;

/// What a source hands out.
#[derive(Clone, Copy)]
enum Kind {
    Binary,
    Gray,
    Rgba,
}

fn element(kind: Kind) -> Element {
    match kind {
        Kind::Binary => {
            Element::Binary(BinaryImage::from_shape_vec(vec![true, false, false, true, true, true], 3, 2).unwrap())
        }
        Kind::Gray => Element::Gray(GrayImage::from_shape_vec(vec![0, 127, 128, 129, 255, 1], 3, 2).unwrap()),
        Kind::Rgba => {
            Element::Rgba(RgbaImage::from_shape_vec(vec![RGBA::new(1, 2, 3, 4), RGBA::new(5, 6, 7, 8)], 2, 1).unwrap())
        }
    }
}

/// A layer without parents that hands out an image of the kind it is set to,
/// keeps whatever it is given, and takes down the kinds of its inputs.
struct Source {
    kind: Rc<Cell<Kind>>,
    seen: Rc<RefCell<Vec<Option<ElementKind>>>>,
    output: Option<Element>,
}

impl Source {
    fn of(kind: Kind) -> Source {
        Source { kind: Rc::new(Cell::new(kind)), seen: Rc::new(RefCell::new(Vec::new())), output: None }
    }

    fn switched_by(kind: &Rc<Cell<Kind>>) -> Source {
        Source { kind: kind.clone(), seen: Rc::new(RefCell::new(Vec::new())), output: None }
    }

    fn watched_by(seen: &Rc<RefCell<Vec<Option<ElementKind>>>>) -> Source {
        Source { kind: Rc::new(Cell::new(Kind::Binary)), seen: seen.clone(), output: None }
    }
}

impl Layer for Source {
    fn compute(&self, input: &Inputs<'_>) -> Result<Computed, Error> {
        *self.seen.borrow_mut() = input.iter().map(|slot| slot.map(|shared| shared.kind())).collect();
        Ok((Some(element(self.kind.get())), None))
    }

    fn update(&mut self, output: Option<Element>, _state_updates: Option<Element>) -> Result<(), Error> {
        self.output = output;
        Ok(())
    }

    fn output(&self) -> Option<ElementRef<'_>> {
        self.output.as_ref().map(|element| element.as_ref())
    }
}

impl InteractiveLayer for Source {}

/// A layer that computes a gray image and commits binary images only.
struct Confused {
    output: Option<BinaryImage>,
}

impl Layer for Confused {
    fn compute(&self, _input: &Inputs<'_>) -> Result<Computed, Error> {
        Ok((Some(element(Kind::Gray)), None))
    }

    fn update(&mut self, output: Option<Element>, _state_updates: Option<Element>) -> Result<(), Error> {
        klex::layer::commit(&mut self.output, output)
    }

    fn output(&self) -> Option<ElementRef<'_>> {
        klex::layer::shared_output(&self.output)
    }
}

impl InteractiveLayer for Confused {}

fn to_gray() -> Box<dyn InteractiveLayer> {
    let layer: InterLayer<_, GrayImage> = InterLayer::new(Convert::<BinaryImage, GrayImage>::new());
    Box::new(layer)
}

fn threshold(level: u8, ordering: Comparison) -> Box<dyn InteractiveLayer> {
    let layer: InterLayer<_, BinaryImage> =
        InterLayer::new(Threshold::<GrayImage, BinaryImage, u8>::new(level, ordering));
    Box::new(layer)
}

fn chain() -> Pipeline {
    let mut graph = Pipeline::new();
    assert_eq!(graph.add_layer(Box::new(Source::of(Kind::Binary)), vec![]), 0);
    assert_eq!(graph.add_layer(to_gray(), vec![0]), 1);
    assert_eq!(graph.add_layer(threshold(128, Comparison::Greater), vec![1]), 2);
    assert_eq!(graph.add_layer(to_gray(), vec![2]), 3);
    graph
}

fn gray_pixels(graph: &Pipeline, index: usize) -> Option<Vec<u8>> {
    match graph.layer(index).output() {
        Some(ElementRef::Gray(image)) => Some(image.pixels()),
        _ => None,
    }
}

fn binary_pixels(graph: &Pipeline, index: usize) -> Option<Vec<bool>> {
    match graph.layer(index).output() {
        Some(ElementRef::Binary(image)) => Some(image.pixels()),
        _ => None,
    }
}

#[test]
fn new_graph_is_empty() {
    let graph = Pipeline::new();
    assert_eq!(graph.len(), 0);
    assert_eq!(graph.selected_layer(), 0);
    let graph = Pipeline::default();
    assert_eq!(graph.len(), 0);
    assert_eq!(graph.selected_layer(), 0);
}

#[test]
fn edges_are_counted() {
    let mut graph = Pipeline::new();
    assert_eq!(graph.edge_count(), 0);
    graph.add_layer(to_gray(), vec![]);
    assert_eq!(graph.edge_count(), 0);
    graph.add_layer(to_gray(), vec![0, 0]);
    assert_eq!(graph.edge_count(), 2);
    graph.add_layer_with_children(to_gray(), vec![1], vec![0, 1, 2]);
    assert_eq!(graph.edge_count(), 6);
    assert_eq!(graph.len(), 3);
}

#[test]
fn add_layer_counts_up_from_zero() {
    let mut graph = Pipeline::new();
    for expected in 0..10 {
        let parents = if expected == 0 { vec![] } else { vec![expected - 1] };
        assert_eq!(graph.add_layer(to_gray(), parents), expected);
        assert_eq!(graph.len(), expected + 1);
    }
    assert_eq!(graph.add_layer_with_children(to_gray(), vec![3, 5], vec![0, 9]), 10);
    assert_eq!(graph.len(), 11);
}

#[test]
fn chain_in_order_gives_output_at_the_end() {
    let mut graph = chain();
    for index in 0..=3 {
        assert_eq!(graph.compute_layer(index), Ok(()));
    }
    assert_eq!(binary_pixels(&graph, 0), Some(vec![true, false, false, true, true, true]));
    assert_eq!(gray_pixels(&graph, 1), Some(vec![255, 0, 0, 255, 255, 255]));
    assert_eq!(binary_pixels(&graph, 2), Some(vec![true, false, false, true, true, true]));
    match graph.layer(3).output() {
        Some(ElementRef::Gray(image)) => {
            assert_eq!((image.width(), image.height()), (3, 2));
            assert_eq!(image.pixels(), vec![255, 0, 0, 255, 255, 255]);
        }
        _ => panic!("no gray output at the last layer"),
    }
}

#[test]
fn chain_out_of_order_misses_input_and_changes_nothing() {
    let mut graph = chain();
    assert_eq!(graph.compute_layer(3), Err(Error::MissingInput { edge: 0 }));
    assert_eq!(graph.compute_layer(2), Err(Error::MissingInput { edge: 0 }));
    assert_eq!(graph.compute_layer(1), Err(Error::MissingInput { edge: 0 }));
    for index in 0..=3 {
        assert!(graph.layer(index).output().is_none());
    }
    assert_eq!(graph.len(), 4);
    for index in 0..=3 {
        assert_eq!(graph.compute_layer(index), Ok(()));
    }
    assert_eq!(gray_pixels(&graph, 3), Some(vec![255, 0, 0, 255, 255, 255]));
}

#[test]
fn parent_of_another_type_is_named_in_the_failure() {
    let mut graph = Pipeline::new();
    graph.add_layer(Box::new(Source::of(Kind::Binary)), vec![]);
    graph.add_layer(threshold(128, Comparison::Greater), vec![0]);
    graph.add_layer(Box::new(Source::of(Kind::Rgba)), vec![]);
    graph.add_layer(to_gray(), vec![2]);
    assert_eq!(graph.compute_layer(0), Ok(()));
    assert_eq!(graph.compute_layer(2), Ok(()));
    assert_eq!(
        graph.compute_layer(1),
        Err(Error::TypeMismatch { expected: ElementKind::Gray, found: ElementKind::Binary, at_edge: Some(0) })
    );
    assert_eq!(
        graph.compute_layer(3),
        Err(Error::TypeMismatch { expected: ElementKind::Binary, found: ElementKind::Rgba, at_edge: Some(0) })
    );
    assert!(graph.layer(1).output().is_none());
    assert!(graph.layer(3).output().is_none());
    assert_eq!(binary_pixels(&graph, 0), Some(vec![true, false, false, true, true, true]));
}

#[test]
fn failed_cycle_keeps_the_last_output() {
    let kind = Rc::new(Cell::new(Kind::Binary));
    let mut graph = Pipeline::new();
    graph.add_layer(Box::new(Source::switched_by(&kind)), vec![]);
    graph.add_layer(to_gray(), vec![0]);
    assert_eq!(graph.compute_layer(0), Ok(()));
    assert_eq!(graph.compute_layer(1), Ok(()));
    assert_eq!(gray_pixels(&graph, 1), Some(vec![255, 0, 0, 255, 255, 255]));
    kind.set(Kind::Gray);
    assert_eq!(graph.compute_layer(0), Ok(()));
    assert_eq!(gray_pixels(&graph, 0), Some(vec![0, 127, 128, 129, 255, 1]));
    assert_eq!(
        graph.compute_layer(1),
        Err(Error::TypeMismatch { expected: ElementKind::Binary, found: ElementKind::Gray, at_edge: Some(0) })
    );
    assert_eq!(gray_pixels(&graph, 1), Some(vec![255, 0, 0, 255, 255, 255]));
}

#[test]
fn failure_of_update_comes_back_and_keeps_the_slot() {
    let mut graph = Pipeline::new();
    graph.add_layer(Box::new(Confused { output: None }), vec![]);
    assert_eq!(
        graph.compute_layer(0),
        Err(Error::TypeMismatch { expected: ElementKind::Binary, found: ElementKind::Gray, at_edge: None })
    );
    assert!(graph.layer(0).output().is_none());
}

#[test]
fn inputs_come_in_the_order_of_the_edges() {
    let seen = Rc::new(RefCell::new(Vec::new()));
    let mut graph = Pipeline::new();
    graph.add_layer(Box::new(Source::of(Kind::Binary)), vec![]);
    graph.add_layer(Box::new(Source::of(Kind::Gray)), vec![]);
    graph.add_layer(Box::new(Source::of(Kind::Rgba)), vec![]);
    graph.add_layer(Box::new(Source::watched_by(&seen)), vec![1, 0, 2, 0]);
    assert_eq!(graph.compute_layer(3), Ok(()));
    assert_eq!(*seen.borrow(), vec![None, None, None, None]);
    assert_eq!(graph.compute_layer(0), Ok(()));
    assert_eq!(graph.compute_layer(3), Ok(()));
    assert_eq!(*seen.borrow(), vec![None, Some(ElementKind::Binary), None, Some(ElementKind::Binary)]);
    assert_eq!(graph.compute_layer(1), Ok(()));
    assert_eq!(graph.compute_layer(2), Ok(()));
    assert_eq!(graph.compute_layer(3), Ok(()));
    assert_eq!(
        *seen.borrow(),
        vec![
            Some(ElementKind::Gray),
            Some(ElementKind::Binary),
            Some(ElementKind::Rgba),
            Some(ElementKind::Binary)
        ]
    );
}

#[test]
fn first_edge_feeds_a_layer_with_one_input() {
    let mut graph = Pipeline::new();
    graph.add_layer(Box::new(Source::of(Kind::Gray)), vec![]);
    graph.add_layer(Box::new(Source::of(Kind::Binary)), vec![]);
    graph.add_layer(to_gray(), vec![1, 0]);
    graph.add_layer(threshold(128, Comparison::Less), vec![0, 1]);
    for index in 0..=3 {
        assert_eq!(graph.compute_layer(index), Ok(()));
    }
    assert_eq!(gray_pixels(&graph, 2), Some(vec![255, 0, 0, 255, 255, 255]));
    assert_eq!(binary_pixels(&graph, 3), Some(vec![true, true, false, false, false, true]));
}

#[test]
fn children_are_fed_by_the_new_layer() {
    let seen = Rc::new(RefCell::new(Vec::new()));
    let mut graph = Pipeline::new();
    assert_eq!(graph.add_layer(to_gray(), vec![]), 0);
    assert_eq!(graph.add_layer(Box::new(Source::watched_by(&seen)), vec![]), 1);
    assert_eq!(graph.add_layer(Box::new(Source::of(Kind::Gray)), vec![]), 2);
    assert_eq!(graph.add_layer_with_children(Box::new(Source::of(Kind::Binary)), vec![2], vec![0, 1]), 3);
    assert_eq!(graph.add_layer_with_children(Box::new(Source::of(Kind::Rgba)), vec![], vec![1]), 4);
    assert_eq!(graph.compute_layer(0), Err(Error::MissingInput { edge: 0 }));
    for index in [2, 3, 4, 0, 1] {
        assert_eq!(graph.compute_layer(index), Ok(()));
    }
    assert_eq!(gray_pixels(&graph, 0), Some(vec![255, 0, 0, 255, 255, 255]));
    assert_eq!(*seen.borrow(), vec![Some(ElementKind::Binary), Some(ElementKind::Rgba)]);
}

#[test]
fn one_parent_feeds_many_children() {
    let mut graph = Pipeline::new();
    graph.add_layer(Box::new(Source::of(Kind::Gray)), vec![]);
    graph.add_layer(threshold(128, Comparison::Less), vec![0]);
    graph.add_layer(threshold(128, Comparison::Equal), vec![0]);
    graph.add_layer(threshold(128, Comparison::Greater), vec![0]);
    for index in 0..=3 {
        assert_eq!(graph.compute_layer(index), Ok(()));
    }
    assert_eq!(binary_pixels(&graph, 1), Some(vec![true, true, false, false, false, true]));
    assert_eq!(binary_pixels(&graph, 2), Some(vec![false, false, true, false, false, false]));
    assert_eq!(binary_pixels(&graph, 3), Some(vec![false, false, false, true, true, false]));
}

#[test]
fn layer_fed_by_itself_misses_its_input_at_first() {
    let mut graph = Pipeline::new();
    assert_eq!(graph.add_layer(to_gray(), vec![0]), 0);
    assert_eq!(graph.compute_layer(0), Err(Error::MissingInput { edge: 0 }));
    assert!(graph.layer(0).output().is_none());
}

#[test]
fn evaluation_again_replaces_the_output() {
    let kind = Rc::new(Cell::new(Kind::Binary));
    let mut graph = Pipeline::new();
    graph.add_layer(Box::new(Source::switched_by(&kind)), vec![]);
    assert_eq!(graph.compute_layer(0), Ok(()));
    assert!(matches!(graph.layer(0).output(), Some(ElementRef::Binary(_))));
    kind.set(Kind::Rgba);
    assert_eq!(graph.compute_layer(0), Ok(()));
    assert!(matches!(graph.layer(0).output(), Some(ElementRef::Rgba(_))));
}

#[test]
fn selection_has_no_effect_on_evaluation() {
    let mut graph = chain();
    graph.select_layer(2);
    assert_eq!(graph.selected_layer(), 2);
    for index in 0..=3 {
        assert_eq!(graph.compute_layer(index), Ok(()));
    }
    assert_eq!(graph.selected_layer(), 2);
    graph.select_layer(0);
    assert_eq!(graph.selected_layer(), 0);
    assert_eq!(gray_pixels(&graph, 3), Some(vec![255, 0, 0, 255, 255, 255]));
}

#[test]
fn interactive_layer_starts_without_extent() {
    let layer: InterLayer<_, GrayImage> = InterLayer::new(Convert::<BinaryImage, GrayImage>::new());
    assert_eq!(layer.width(), None);
    assert_eq!(layer.height(), None);
    assert_eq!(layer.layout_size(), (0, 0));
    assert!(layer.output().is_none());
}

#[test]
fn interactive_layer_does_what_its_layer_does() {
    let mut layer: InterLayer<_, BinaryImage> =
        InterLayer::new(Threshold::<GrayImage, BinaryImage, u8>::new(128, Comparison::Less));
    let input = GrayImage::from_shape_vec(vec![0, 200], 2, 1).unwrap();
    let (output, patch) = layer.compute(&[Some(ElementRef::Gray(&input))]).unwrap();
    assert!(patch.is_none());
    assert_eq!(layer.update(output, patch), Ok(()));
    match layer.output() {
        Some(ElementRef::Binary(image)) => assert_eq!(image.pixels(), vec![true, false]),
        _ => panic!("no binary output"),
    }
    assert_eq!(layer.compute(&[]).err(), Some(Error::MissingInput { edge: 0 }));
    assert_eq!((layer.width(), layer.height()), (None, None));
}

#[test]
fn picture_of_an_rgba_output() {
    let mut layer: InterLayer<_, RgbaImage> = InterLayer::new(Source::of(Kind::Rgba));
    assert!(layer.picture().is_none());
    let (output, patch) = layer.compute(&[]).unwrap();
    assert_eq!(layer.update(output, patch), Ok(()));
    match layer.picture() {
        Some((handle, width, height)) => {
            assert_eq!((width, height), (2, 1));
            match handle.data() {
                Data::Pixels { width, height, pixels } => {
                    assert_eq!((*width, *height), (2, 1));
                    assert_eq!(pixels, &vec![3, 2, 1, 4, 7, 6, 5, 8]);
                }
                _ => panic!("the handle holds no pixels"),
            }
        }
        None => panic!("nothing to draw"),
    }
}

#[test]
fn no_picture_of_another_output() {
    let mut layer: InterLayer<_, RgbaImage> = InterLayer::new(Source::of(Kind::Gray));
    let (output, patch) = layer.compute(&[]).unwrap();
    assert_eq!(layer.update(output, patch), Ok(()));
    assert!(layer.picture().is_none());
}

#[test]
fn boxed_layer_does_what_its_layer_does() {
    let mut layer: Box<dyn Layer> = Box::new(Convert::<BinaryImage, GrayImage>::new());
    let input = BinaryImage::from_shape_vec(vec![false, true], 1, 2).unwrap();
    let (output, patch) = layer.compute(&[Some(ElementRef::Binary(&input))]).unwrap();
    assert_eq!(layer.update(output, patch), Ok(()));
    match layer.output() {
        Some(ElementRef::Gray(image)) => assert_eq!(image.pixels(), vec![0, 255]),
        _ => panic!("no gray output"),
    }
}
