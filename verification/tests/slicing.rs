use nine_grid_slicer::item::ImageItem;
use nine_grid_slicer::raster::{Bitmap, Pixel};
use nine_grid_slicer::slicer::{
    extract_corner, resize_to, scale_full_image, scale_image, slice_and_stitch, sliced_size,
    stitch_corners,
};

const RED: Pixel = [255, 0, 0, 255];
const CLEAR: Pixel = [0, 0, 0, 0];

/// The target size for a percentage, computed the way the application does.
fn percent(scale_percent: f32) -> impl Fn(u32, u32) -> Option<(u32, u32)> {
    move |w: u32, h: u32| {
        if (scale_percent - 100.0).abs() < 0.01 {
            None
        } else {
            let factor = scale_percent / 100.0;
            Some(((w as f32 * factor) as u32, (h as f32 * factor) as u32))
        }
    }
}

/// A bitmap whose pixel at (x, y) is [x, y, 0, 255].
fn coordinates(width: u32, height: u32) -> Bitmap {
    let mut pixels = Vec::new();
    for y in 0..height {
        for x in 0..width {
            pixels.push([x as u8, y as u8, 0, 255]);
        }
    }
    Bitmap::try_from_vec(width, height, pixels).unwrap()
}

fn item_with_cuts(img: Bitmap, top: u32, bottom: u32, left: u32, right: u32) -> ImageItem {
    let mut item = ImageItem::new("/pictures/test.png".to_string(), img);
    item.top = top;
    item.bottom = bottom;
    item.left = left;
    item.right = right;
    item
}

#[test]
fn test_extract_corner() {
    let img = Bitmap::from_pixel(100, 100, RED);
    let corner = extract_corner(&img, 0, 0, 10, 10);
    assert_eq!(corner.width(), 10);
    assert_eq!(corner.height(), 10);
}

#[test]
fn test_scale_image() {
    let img = Bitmap::from_pixel(100, 100, RED);

    let scaled = scale_image(&img, percent(50.0));
    assert_eq!(scaled.width(), 50);
    assert_eq!(scaled.height(), 50);

    let scaled = scale_image(&img, percent(200.0));
    assert_eq!(scaled.width(), 200);
    assert_eq!(scaled.height(), 200);

    let scaled = scale_image(&img, percent(100.0));
    assert_eq!(scaled.width(), 100);
    assert_eq!(scaled.height(), 100);
}

#[test]
fn test_scale_full_image() {
    let img = Bitmap::from_pixel(100, 100, RED);
    let scaled = scale_full_image(&img, percent(50.0));
    assert_eq!(scaled.width(), 50);
    assert_eq!(scaled.height(), 50);
}

#[test]
fn extract_corner_clamps_to_the_image() {
    let img = coordinates(10, 8);
    let corner = extract_corner(&img, 7, 6, 5, 5);
    assert_eq!((corner.width(), corner.height()), (3, 2));
    assert_eq!(corner.get_pixel(0, 0), [7, 6, 0, 255]);
    assert_eq!(corner.get_pixel(2, 1), [9, 7, 0, 255]);

    let beyond = extract_corner(&img, 20, 0, 5, 5);
    assert_eq!((beyond.width(), beyond.height()), (0, 5));

    let empty = extract_corner(&img, 0, 0, 0, 5);
    assert_eq!((empty.width(), empty.height()), (0, 0));
}

#[test]
fn stitch_places_corners_in_quadrants() {
    let tl = Bitmap::from_pixel(2, 1, [1, 1, 1, 1]);
    let tr = Bitmap::from_pixel(1, 2, [2, 2, 2, 2]);
    let bl = Bitmap::from_pixel(1, 1, [3, 3, 3, 3]);
    let br = Bitmap::from_pixel(3, 1, [4, 4, 4, 4]);
    let out = stitch_corners(&tl, &tr, &bl, &br);
    // left column 2 wide, right column 3 wide, upper row 2 high, lower row 1 high
    assert_eq!((out.width(), out.height()), (5, 3));
    assert_eq!(out.get_pixel(0, 0), [1, 1, 1, 1]);
    assert_eq!(out.get_pixel(1, 0), [1, 1, 1, 1]);
    assert_eq!(out.get_pixel(0, 1), CLEAR);
    assert_eq!(out.get_pixel(2, 0), [2, 2, 2, 2]);
    assert_eq!(out.get_pixel(2, 1), [2, 2, 2, 2]);
    assert_eq!(out.get_pixel(3, 0), CLEAR);
    assert_eq!(out.get_pixel(0, 2), [3, 3, 3, 3]);
    assert_eq!(out.get_pixel(1, 2), CLEAR);
    assert_eq!(out.get_pixel(4, 2), [4, 4, 4, 4]);
}

#[test]
fn stitch_of_empty_corners_is_one_clear_pixel() {
    let e = Bitmap::new(0, 0);
    let out = stitch_corners(&e, &e, &e, &e);
    assert_eq!((out.width(), out.height()), (1, 1));
    assert_eq!(out.get_pixel(0, 0), CLEAR);
}

#[test]
fn slicing_joins_the_four_corners() {
    let item = item_with_cuts(coordinates(10, 8), 2, 3, 4, 1);
    let out = slice_and_stitch(&item, percent(100.0));
    assert_eq!((out.width(), out.height()), (5, 5));
    assert_eq!(out.get_pixel(0, 0), [0, 0, 0, 255]);
    assert_eq!(out.get_pixel(3, 1), [3, 1, 0, 255]);
    assert_eq!(out.get_pixel(4, 0), [9, 0, 0, 255]);
    assert_eq!(out.get_pixel(0, 2), [0, 5, 0, 255]);
    assert_eq!(out.get_pixel(4, 4), [9, 7, 0, 255]);
}

#[test]
fn uncut_image_is_kept_whole() {
    let img = coordinates(6, 4);
    let item = item_with_cuts(img.clone(), 0, 0, 0, 0);
    let out = slice_and_stitch(&item, percent(100.0));
    assert_eq!(out.pixels(), img.pixels());
    assert_eq!((out.width(), out.height()), (6, 4));
}

#[test]
fn direction_without_cuts_keeps_its_extent() {
    let item = item_with_cuts(coordinates(10, 8), 0, 0, 2, 3);
    let out = slice_and_stitch(&item, percent(100.0));
    assert_eq!((out.width(), out.height()), (5, 8));
    assert_eq!(out.get_pixel(2, 7), [7, 7, 0, 255]);
}

#[test]
fn slicing_then_scaling_resizes_the_stitched_image() {
    let item = item_with_cuts(Bitmap::from_pixel(40, 40, RED), 5, 5, 5, 5);
    let out = slice_and_stitch(&item, percent(50.0));
    assert_eq!((out.width(), out.height()), (5, 5));
}

#[test]
fn resize_never_gives_an_empty_side() {
    let img = Bitmap::from_pixel(3, 3, RED);
    let out = resize_to(&img, Some((0, 0)));
    assert_eq!((out.width(), out.height()), (1, 1));
    let same = resize_to(&img, Some((3, 3)));
    assert_eq!(same.pixels(), img.pixels());
    let kept = resize_to(&img, None);
    assert_eq!(kept.pixels(), img.pixels());
}

#[test]
fn resize_of_an_empty_image_is_clear() {
    let img = Bitmap::new(0, 4);
    let out = resize_to(&img, Some((2, 2)));
    assert_eq!((out.width(), out.height()), (2, 2));
    assert!(out.pixels().iter().all(|p| *p == CLEAR));
}

#[test]
fn bitmap_construction_checks_the_pixel_count() {
    assert!(Bitmap::try_from_vec(2, 2, vec![RED; 4]).is_some());
    assert!(Bitmap::try_from_vec(2, 2, vec![RED; 3]).is_none());
    let b = Bitmap::try_from_vec(2, 1, vec![RED, CLEAR]).unwrap();
    assert_eq!(b.get_pixel(1, 0), CLEAR);
    let c = b.crop(1, 0, 5, 5);
    assert_eq!((c.width(), c.height()), (1, 1));
    assert_eq!(c.get_pixel(0, 0), CLEAR);
}

#[test]
fn sliced_size_predicts_the_slice() {
    let item = item_with_cuts(coordinates(10, 8), 2, 3, 4, 1);
    assert_eq!(sliced_size(&item), Some((5, 5)));
    let item = item_with_cuts(coordinates(10, 8), 0, 0, 20, 30);
    assert_eq!(sliced_size(&item), Some((20, 8)));
    let out = slice_and_stitch(&item, percent(100.0));
    assert_eq!((out.width(), out.height()), (20, 8));
    let item = item_with_cuts(Bitmap::new(0, 0), 1, 1, 1, 1);
    assert_eq!(sliced_size(&item), Some((1, 1)));
    let whole = item_with_cuts(coordinates(7, 3), 0, 0, 0, 0);
    assert_eq!(sliced_size(&whole), Some((7, 3)));
}

#[test]
fn rescaling_keeps_constant_channels() {
    let red = Bitmap::from_pixel(100, 100, RED);
    for scale in [50.0f32, 200.0, 33.0, 1.0] {
        let out = scale_image(&red, percent(scale));
        assert!(out.width() >= 1 && out.height() >= 1);
        assert!(out.pixels().iter().all(|p| *p == RED));
    }
    // varying colours, opaque throughout: the result stays opaque
    let opaque = coordinates(64, 48);
    let out = scale_image(&opaque, percent(37.0));
    assert_eq!((out.width(), out.height()), (23, 17));
    assert!(out.pixels().iter().all(|p| p[3] == 255 && p[2] == 0));
    let item = item_with_cuts(coordinates(60, 60), 10, 10, 10, 10);
    let out = slice_and_stitch(&item, percent(150.0));
    assert_eq!((out.width(), out.height()), (30, 30));
    assert!(out.pixels().iter().all(|p| p[3] == 255 && p[2] == 0));
}
