use iced_native::widget::image::Data;
use klex::element::grid::Grid;
use klex::element::pixel::{RGB, RGBA};
use klex::element::{BinaryImage, GrayAlphaImage, GrayImage, Image, RgbaImage};
use klex::error::Error;

fn gray_grid(rows: usize, cols: usize) -> Grid<u8> {
    let cells: Vec<u8> = (0..rows * cols).map(|i| i as u8).collect();
    Grid::from_shape_vec(rows, cols, cells).unwrap()
}

#[test]
fn image_of_matching_shape_is_built() {
    for (height, width) in [(1, 1), (2, 3), (3, 2), (5, 1), (1, 5), (4, 4)] {
        let image = Image::new(gray_grid(height, width), width, height).unwrap();
        assert_eq!(image.width(), width);
        assert_eq!(image.height(), height);
        assert_eq!(image.pixels().len(), width * height);
    }
}

#[test]
fn image_of_empty_shape_is_built() {
    let image = Image::new(gray_grid(0, 5), 5, 0).unwrap();
    assert_eq!((image.width(), image.height()), (5, 0));
    assert_eq!(image.pixels(), Vec::<u8>::new());
    let image = Image::new(gray_grid(3, 0), 0, 3).unwrap();
    assert_eq!((image.width(), image.height()), (0, 3));
}

#[test]
fn image_of_other_shape_is_refused_with_both_shapes() {
    let refused = Image::new(gray_grid(2, 3), 2, 3);
    assert_eq!(refused.err(), Some(Error::ShapeMismatch { actual: (2, 3), declared: (3, 2) }));
    let refused = Image::new(gray_grid(2, 3), 3, 3);
    assert_eq!(refused.err(), Some(Error::ShapeMismatch { actual: (2, 3), declared: (3, 3) }));
    let refused = Image::new(gray_grid(2, 3), 4, 2);
    assert_eq!(refused.err(), Some(Error::ShapeMismatch { actual: (2, 3), declared: (2, 4) }));
    let refused = Image::new(gray_grid(0, 5), 0, 5);
    assert_eq!(refused.err(), Some(Error::ShapeMismatch { actual: (0, 5), declared: (5, 0) }));
}

#[test]
fn typed_images_check_their_shape() {
    assert!(GrayImage::new(gray_grid(2, 3), 3, 2).is_ok());
    assert_eq!(
        GrayImage::new(gray_grid(2, 3), 2, 3).err(),
        Some(Error::ShapeMismatch { actual: (2, 3), declared: (3, 2) })
    );
    let bits = Grid::from_shape_vec(1, 2, vec![true, false]).unwrap();
    assert!(BinaryImage::new(bits, 2, 1).is_ok());
    let bits = Grid::from_shape_vec(1, 2, vec![true, false]).unwrap();
    assert_eq!(
        BinaryImage::new(bits, 1, 2).err(),
        Some(Error::ShapeMismatch { actual: (1, 2), declared: (2, 1) })
    );
    let pairs = Grid::from_shape_vec(2, 1, vec![(1u8, 2u8), (3, 4)]).unwrap();
    assert!(GrayAlphaImage::new(pairs, 1, 2).is_ok());
    let pairs = Grid::from_shape_vec(2, 1, vec![(1u8, 2u8), (3, 4)]).unwrap();
    assert_eq!(
        GrayAlphaImage::new(pairs, 2, 1).err(),
        Some(Error::ShapeMismatch { actual: (2, 1), declared: (1, 2) })
    );
    let colors = Grid::from_shape_vec(1, 1, vec![RGBA::new(1u8, 2, 3, 4)]).unwrap();
    assert!(RgbaImage::new(colors, 1, 1).is_ok());
    let colors = Grid::from_shape_vec(1, 1, vec![RGBA::new(1u8, 2, 3, 4)]).unwrap();
    assert_eq!(
        RgbaImage::new(colors, 1, 2).err(),
        Some(Error::ShapeMismatch { actual: (1, 1), declared: (2, 1) })
    );
}

#[test]
fn grid_keeps_shape_and_row_major_order() {
    let grid = Grid::from_shape_vec(2, 3, vec![10u8, 11, 12, 20, 21, 22]).unwrap();
    assert_eq!(grid.len_of(0), 2);
    assert_eq!(grid.len_of(1), 3);
    assert_eq!(grid.to_vec(), vec![10, 11, 12, 20, 21, 22]);
    let grid = Grid::from_shape_vec(3, 1, vec![true, false, true]).unwrap();
    assert_eq!((grid.len_of(0), grid.len_of(1)), (3, 1));
    assert_eq!(grid.to_vec(), vec![true, false, true]);
    let grid = Grid::from_shape_vec(1, 2, vec![(1u8, 2u8), (3, 4)]).unwrap();
    assert_eq!((grid.len_of(0), grid.len_of(1)), (1, 2));
    assert_eq!(grid.to_vec(), vec![(1, 2), (3, 4)]);
    let grid = Grid::from_shape_vec(2, 1, vec![RGBA::new(1u8, 2, 3, 4), RGBA::new(5, 6, 7, 8)]).unwrap();
    assert_eq!((grid.len_of(0), grid.len_of(1)), (2, 1));
    assert_eq!(grid.to_vec(), vec![RGBA::new(1, 2, 3, 4), RGBA::new(5, 6, 7, 8)]);
}

#[test]
fn grid_refuses_a_vector_of_another_length() {
    let refused = Grid::from_shape_vec(2, 3, vec![0u8; 5]);
    assert_eq!(refused.err(), Some(Error::ShapeMismatch { actual: (1, 5), declared: (2, 3) }));
    let refused = Grid::from_shape_vec(2, 3, vec![false; 7]);
    assert_eq!(refused.err(), Some(Error::ShapeMismatch { actual: (1, 7), declared: (2, 3) }));
    let refused = Grid::from_shape_vec(1, 1, Vec::<(u8, u8)>::new());
    assert_eq!(refused.err(), Some(Error::ShapeMismatch { actual: (1, 0), declared: (1, 1) }));
    let refused = Grid::from_shape_vec(0, 0, vec![RGBA::new(0u8, 0, 0, 0)]);
    assert_eq!(refused.err(), Some(Error::ShapeMismatch { actual: (1, 1), declared: (0, 0) }));
}

#[test]
fn grid_refuses_a_shape_that_cannot_be_addressed() {
    let refused = Grid::from_shape_vec(0, usize::MAX, Vec::<u8>::new());
    assert_eq!(
        refused.err(),
        Some(Error::ShapeMismatch { actual: (1, 0), declared: (0, usize::MAX) })
    );
    let at_the_limit = Grid::from_shape_vec(0, isize::MAX as usize, Vec::<u8>::new()).unwrap();
    assert_eq!((at_the_limit.len_of(0), at_the_limit.len_of(1)), (0, isize::MAX as usize));
    let beyond = Grid::from_shape_vec(isize::MAX as usize + 1, 0, Vec::<bool>::new());
    assert!(beyond.is_err());
}

#[test]
fn image_from_pixels_row_by_row() {
    let image = GrayImage::from_shape_vec(vec![1, 2, 3, 4, 5, 6], 3, 2).unwrap();
    assert_eq!((image.width(), image.height()), (3, 2));
    assert_eq!(image.pixels(), vec![1, 2, 3, 4, 5, 6]);
    assert_eq!((image.data().len_of(0), image.data().len_of(1)), (2, 3));
    assert_eq!(image.data().to_vec(), vec![1, 2, 3, 4, 5, 6]);
    let refused = GrayImage::from_shape_vec(vec![1, 2, 3, 4, 5], 3, 2);
    assert_eq!(refused.err(), Some(Error::ShapeMismatch { actual: (1, 5), declared: (2, 3) }));
    let refused = Image::from_shape_vec(vec![true], 2, 2);
    assert_eq!(refused.err(), Some(Error::ShapeMismatch { actual: (1, 1), declared: (2, 2) }));
}

#[test]
fn typed_image_gives_its_image() {
    let typed = BinaryImage::from_shape_vec(vec![true, false], 1, 2).unwrap();
    let image: &Image<bool> = &typed;
    assert_eq!((image.width(), image.height()), (1, 2));
    assert_eq!(image.pixels(), vec![true, false]);
    assert_eq!(image.data().to_vec(), vec![true, false]);
}

#[test]
fn pixel_channels_by_name() {
    let pixel = RGBA::new(1u8, 2, 3, 4);
    assert_eq!((pixel.r(), pixel.g(), pixel.b(), pixel.a()), (1, 2, 3, 4));
    assert_eq!(pixel.data(), [1, 2, 3, 4]);
    let pixel = RGB::new(9u16, 8, 7);
    assert_eq!((pixel.r(), pixel.g(), pixel.b()), (9, 8, 7));
    assert_eq!(pixel.data(), [9, 8, 7]);
}

#[test]
fn rgba_bytes_in_bgra_order() {
    let pixels = vec![RGBA::new(1u8, 2, 3, 4), RGBA::new(5, 6, 7, 8), RGBA::new(9, 10, 11, 12)];
    let image = RgbaImage::from_shape_vec(pixels, 3, 1).unwrap();
    assert_eq!(image.bgra_bytes(), vec![3, 2, 1, 4, 7, 6, 5, 8, 11, 10, 9, 12]);
    let empty = RgbaImage::from_shape_vec(Vec::new(), 0, 0).unwrap();
    assert_eq!(empty.bgra_bytes(), Vec::<u8>::new());
}

#[test]
fn rgba_handle_holds_bgra_bytes() {
    let pixels = vec![RGBA::new(1u8, 2, 3, 4), RGBA::new(5, 6, 7, 8)];
    let image = RgbaImage::from_shape_vec(pixels, 1, 2).unwrap();
    let handle = image.handle();
    match handle.data() {
        Data::Pixels { width, height, pixels } => {
            assert_eq!((*width, *height), (1, 2));
            assert_eq!(pixels, &vec![3, 2, 1, 4, 7, 6, 5, 8]);
        }
        _ => panic!("the handle holds no pixels"),
    }
}
