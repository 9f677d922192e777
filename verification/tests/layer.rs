use klex::element::pixel::RGBA;
use klex::element::{BinaryImage, GrayAlphaImage, GrayImage, RgbaImage};
use klex::error::{ElementKind, Error};
use klex::layer::primitive::Convert;
use klex::layer::{commit, computed, conclude, shared_output, single_input, Element, ElementRef, Layer, Typed};

fn gray(pixels: Vec<u8>) -> GrayImage {
    let width = pixels.len();
    GrayImage::from_shape_vec(pixels, width, 1).unwrap()
}

fn binary(pixels: Vec<bool>) -> BinaryImage {
    let width = pixels.len();
    BinaryImage::from_shape_vec(pixels, width, 1).unwrap()
}

#[test]
fn every_type_has_its_kind() {
    assert_eq!(<BinaryImage as Typed>::kind(), ElementKind::Binary);
    assert_eq!(<GrayImage as Typed>::kind(), ElementKind::Gray);
    assert_eq!(<GrayAlphaImage as Typed>::kind(), ElementKind::GrayAlpha);
    assert_eq!(<RgbaImage as Typed>::kind(), ElementKind::Rgba);
}

#[test]
fn element_knows_the_kind_it_holds() {
    assert_eq!(Element::Gray(gray(vec![1])).as_ref().kind(), ElementKind::Gray);
    assert_eq!(Element::Binary(binary(vec![true])).as_ref().kind(), ElementKind::Binary);
    let pairs = GrayAlphaImage::from_shape_vec(vec![(1, 2)], 1, 1).unwrap();
    assert_eq!(Element::GrayAlpha(pairs).as_ref().kind(), ElementKind::GrayAlpha);
    let colors = RgbaImage::from_shape_vec(vec![RGBA::new(1, 2, 3, 4)], 1, 1).unwrap();
    assert_eq!(Element::Rgba(colors).as_ref().kind(), ElementKind::Rgba);
}

#[test]
fn erased_value_comes_back_as_its_own_type_only() {
    let element = gray(vec![1, 2]).erase();
    assert!(matches!(element, Element::Gray(_)));
    let element = match BinaryImage::downcast(element) {
        Ok(_) => panic!("a gray image is no binary image"),
        Err(element) => element,
    };
    match GrayImage::downcast(element) {
        Ok(image) => assert_eq!(image.pixels(), vec![1, 2]),
        Err(_) => panic!("a gray image is a gray image"),
    }
}

#[test]
fn reference_comes_back_as_its_own_type_only() {
    let image = binary(vec![true, false]);
    let shared = image.as_element();
    assert!(matches!(shared, ElementRef::Binary(_)));
    assert!(GrayImage::downcast_ref(shared).is_none());
    assert!(RgbaImage::downcast_ref(shared).is_none());
    assert_eq!(BinaryImage::downcast_ref(shared).map(|image| image.pixels()), Some(vec![true, false]));
}

#[test]
fn single_input_is_the_first_slot() {
    let first = gray(vec![1]);
    let second = gray(vec![2]);
    let slots = [Some(ElementRef::Gray(&first)), Some(ElementRef::Gray(&second))];
    assert_eq!(single_input::<GrayImage>(&slots).map(|image| image.pixels()), Ok(vec![1]));
}

#[test]
fn single_input_missing() {
    assert_eq!(single_input::<GrayImage>(&[]).err(), Some(Error::MissingInput { edge: 0 }));
    assert_eq!(single_input::<GrayImage>(&[None]).err(), Some(Error::MissingInput { edge: 0 }));
    let second = gray(vec![2]);
    let slots = [None, Some(ElementRef::Gray(&second))];
    assert_eq!(single_input::<GrayImage>(&slots).err(), Some(Error::MissingInput { edge: 0 }));
}

#[test]
fn single_input_of_another_type() {
    let image = gray(vec![1]);
    let slots = [Some(ElementRef::Gray(&image))];
    assert_eq!(
        single_input::<BinaryImage>(&slots).err(),
        Some(Error::TypeMismatch { expected: ElementKind::Binary, found: ElementKind::Gray, at_edge: Some(0) })
    );
    assert_eq!(
        single_input::<GrayAlphaImage>(&slots).err(),
        Some(Error::TypeMismatch { expected: ElementKind::GrayAlpha, found: ElementKind::Gray, at_edge: Some(0) })
    );
}

#[test]
fn commit_replaces_and_clears() {
    let mut slot: Option<GrayImage> = None;
    assert_eq!(commit(&mut slot, Some(Element::Gray(gray(vec![1])))), Ok(()));
    assert_eq!(slot.as_ref().map(|image| image.pixels()), Some(vec![1]));
    assert_eq!(commit(&mut slot, Some(Element::Gray(gray(vec![2, 3])))), Ok(()));
    assert_eq!(slot.as_ref().map(|image| image.pixels()), Some(vec![2, 3]));
    assert_eq!(commit(&mut slot, None), Ok(()));
    assert!(slot.is_none());
}

#[test]
fn commit_turns_down_another_type() {
    let mut slot: Option<GrayImage> = Some(gray(vec![1]));
    assert_eq!(
        commit(&mut slot, Some(Element::Binary(binary(vec![true])))),
        Err(Error::TypeMismatch { expected: ElementKind::Gray, found: ElementKind::Binary, at_edge: None })
    );
    assert_eq!(slot.as_ref().map(|image| image.pixels()), Some(vec![1]));
    let mut empty: Option<BinaryImage> = None;
    assert_eq!(
        commit(&mut empty, Some(Element::Gray(gray(vec![1])))),
        Err(Error::TypeMismatch { expected: ElementKind::Binary, found: ElementKind::Gray, at_edge: None })
    );
    assert!(empty.is_none());
}

#[test]
fn shared_output_of_a_slot() {
    let slot: Option<GrayImage> = None;
    assert!(shared_output(&slot).is_none());
    let slot = Some(gray(vec![5]));
    match shared_output(&slot) {
        Some(ElementRef::Gray(image)) => assert_eq!(image.pixels(), vec![5]),
        _ => panic!("no gray image in the slot"),
    }
}

#[test]
fn computed_output_travels_without_patch() {
    match computed(Ok(gray(vec![7]))) {
        Ok((Some(Element::Gray(image)), None)) => assert_eq!(image.pixels(), vec![7]),
        _ => panic!("not a gray output without a patch"),
    }
    let failed = computed::<GrayImage>(Err(Error::MissingInput { edge: 0 }));
    assert_eq!(failed.err(), Some(Error::MissingInput { edge: 0 }));
}

#[test]
fn conclude_hands_on_the_failure_of_compute() {
    let mut layer = Convert::<BinaryImage, GrayImage>::new();
    assert_eq!(Layer::update(&mut layer, Some(Element::Gray(gray(vec![9]))), None), Ok(()));
    assert_eq!(conclude(&mut layer, Err(Error::MissingInput { edge: 0 })), Err(Error::MissingInput { edge: 0 }));
    match Layer::output(&layer) {
        Some(ElementRef::Gray(image)) => assert_eq!(image.pixels(), vec![9]),
        _ => panic!("the slot lost its image"),
    }
}

#[test]
fn conclude_commits_what_was_computed() {
    let mut layer = Convert::<BinaryImage, GrayImage>::new();
    assert_eq!(conclude(&mut layer, Ok((Some(Element::Gray(gray(vec![3, 4]))), None))), Ok(()));
    match Layer::output(&layer) {
        Some(ElementRef::Gray(image)) => assert_eq!(image.pixels(), vec![3, 4]),
        _ => panic!("no gray output"),
    }
    assert_eq!(
        conclude(&mut layer, Ok((Some(Element::Binary(binary(vec![true]))), None))),
        Err(Error::TypeMismatch { expected: ElementKind::Gray, found: ElementKind::Binary, at_edge: None })
    );
    match Layer::output(&layer) {
        Some(ElementRef::Gray(image)) => assert_eq!(image.pixels(), vec![3, 4]),
        _ => panic!("the slot lost its image"),
    }
}

#[test]
fn kinds_are_labelled_with_their_types() {
    assert_eq!(ElementKind::Binary.label(), "klex::element::BinaryImage");
    assert_eq!(ElementKind::BinaryAlpha.label(), "klex::element::BinaryAlphaImage");
    assert_eq!(ElementKind::Gray.label(), "klex::element::GrayImage");
    assert_eq!(ElementKind::GrayAlpha.label(), "klex::element::GrayAlphaImage");
    assert_eq!(ElementKind::Rgb.label(), "klex::element::RgbImage");
    assert_eq!(ElementKind::Rgba.label(), "klex::element::RgbaImage");
}
