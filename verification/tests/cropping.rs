use image_compositor::cropper::{crop, fit_axis, out_of_bounds_crop, AxisFit};
use image_compositor::raster::{RasterBuffer, Rgba};

fn numbered(width: u32, height: u32) -> RasterBuffer {
    let mut img = RasterBuffer::new(width, height).unwrap();
    for y in 0..height {
        for x in 0..width {
            img.put_pixel(x, y, Rgba { red: x as u8, green: y as u8, blue: 0, alpha: 255 });
        }
    }
    img
}

#[test]
fn image_overhanging_left_and_bottom_is_cut_on_both() {
    let out = out_of_bounds_crop(numbered(50, 50), -10, 5, 40, 40);
    assert_eq!((out.image.width(), out.image.height()), (40, 35));
    assert_eq!((out.x_pos, out.y_pos), (0, 5));
    // Ten columns are gone from the left, fifteen rows from the bottom.
    assert_eq!(out.image.get_pixel(0, 0), Rgba { red: 10, green: 0, blue: 0, alpha: 255 });
    assert_eq!(out.image.get_pixel(39, 34), Rgba { red: 49, green: 34, blue: 0, alpha: 255 });
}

#[test]
fn image_inside_the_canvas_is_left_alone() {
    let out = out_of_bounds_crop(numbered(4, 3), 2, 5, 10, 8);
    assert_eq!((out.image.width(), out.image.height()), (4, 3));
    assert_eq!((out.x_pos, out.y_pos), (2, 5));
    assert_eq!(out.image.as_raw(), numbered(4, 3).as_raw());
}

#[test]
fn image_reaching_the_far_edge_exactly_is_left_alone() {
    let out = out_of_bounds_crop(numbered(4, 3), 6, 5, 10, 8);
    assert_eq!((out.image.width(), out.image.height()), (4, 3));
    assert_eq!((out.x_pos, out.y_pos), (6, 5));
}

#[test]
fn trailing_edge_is_cut_at_the_canvas_end() {
    let out = out_of_bounds_crop(numbered(6, 6), 7, 0, 10, 4);
    assert_eq!((out.image.width(), out.image.height()), (3, 4));
    assert_eq!((out.x_pos, out.y_pos), (7, 0));
    assert_eq!(out.image.get_pixel(0, 0), Rgba { red: 0, green: 0, blue: 0, alpha: 255 });
    assert_eq!(out.image.get_pixel(2, 3), Rgba { red: 2, green: 3, blue: 0, alpha: 255 });
}

#[test]
fn placed_part_lies_inside_the_canvas() {
    for x_pos in [-30, -12, -1, 0, 3, 10, 19, 20] {
        for y_pos in [-25, -9, 0, 8, 15] {
            for (max_width, max_height) in [(20, 15), (5, 5), (40, 40)] {
                if x_pos > max_width as i32 || y_pos > max_height as i32 {
                    continue;
                }
                let out = out_of_bounds_crop(numbered(12, 9), x_pos, y_pos, max_width, max_height);
                assert!(out.x_pos + out.image.width() <= max_width);
                assert!(out.y_pos + out.image.height() <= max_height);
                assert!(out.image.width() <= 12 && out.image.height() <= 9);
            }
        }
    }
}

#[test]
fn image_before_the_canvas_is_cut_away() {
    let out = out_of_bounds_crop(numbered(5, 5), -5, -7, 10, 10);
    assert_eq!((out.image.width(), out.image.height()), (0, 0));
    assert_eq!((out.x_pos, out.y_pos), (0, 0));
    assert_eq!(out.image.into_raw(), Vec::<u8>::new());
}

#[test]
fn image_past_the_canvas_is_cut_away_and_keeps_its_place() {
    let out = out_of_bounds_crop(numbered(10, 10), 50, 0, 40, 40);
    assert_eq!((out.image.width(), out.image.height()), (0, 10));
    assert_eq!((out.x_pos, out.y_pos), (50, 0));
}

#[test]
fn image_wider_than_the_canvas_from_before_it_keeps_its_leading_edge() {
    let out = out_of_bounds_crop(numbered(30, 4), -5, 0, 10, 10);
    assert_eq!((out.image.width(), out.image.height()), (10, 4));
    assert_eq!((out.x_pos, out.y_pos), (0, 0));
    assert_eq!(out.image.get_pixel(0, 0), Rgba { red: 0, green: 0, blue: 0, alpha: 255 });
    assert_eq!(out.image.get_pixel(9, 3), Rgba { red: 9, green: 3, blue: 0, alpha: 255 });
}

#[test]
fn fit_axis_covers_the_three_cases() {
    assert_eq!(fit_axis(50, -10, 40), AxisFit { skip: 10, keep: 40, position: 0 });
    assert_eq!(fit_axis(50, 5, 40), AxisFit { skip: 0, keep: 35, position: 5 });
    assert_eq!(fit_axis(50, 5, 100), AxisFit { skip: 0, keep: 50, position: 5 });
    assert_eq!(fit_axis(50, 40, 40), AxisFit { skip: 0, keep: 0, position: 40 });
    assert_eq!(fit_axis(0, 40, 40), AxisFit { skip: 0, keep: 0, position: 40 });
    assert_eq!(fit_axis(50, -50, 40), AxisFit { skip: 50, keep: 0, position: 0 });
    assert_eq!(fit_axis(50, -60, 40), AxisFit { skip: 50, keep: 0, position: 0 });
}

#[test]
fn fit_axis_takes_the_largest_numbers() {
    assert_eq!(
        fit_axis(u32::MAX, i32::MAX, u32::MAX),
        AxisFit { skip: 0, keep: u32::MAX - i32::MAX as u32, position: i32::MAX as u32 }
    );
    assert_eq!(fit_axis(u32::MAX, i32::MIN, 0), AxisFit { skip: 0, keep: 0, position: 0 });
    assert_eq!(
        fit_axis(u32::MAX, i32::MIN, u32::MAX),
        AxisFit { skip: 1 << 31, keep: u32::MAX - (1 << 31), position: 0 }
    );
    assert_eq!(fit_axis(7, i32::MIN, 3), AxisFit { skip: 7, keep: 0, position: 0 });
    assert_eq!(fit_axis(0, 0, 0), AxisFit { skip: 0, keep: 0, position: 0 });
    assert_eq!(fit_axis(1, i32::MAX, 5), AxisFit { skip: 0, keep: 0, position: i32::MAX as u32 });
}

#[test]
fn crop_copies_the_rectangle_inside_the_image() {
    let img = numbered(7, 5);
    let out = crop(&img, 2, 1, 3, 2);
    assert_eq!((out.width(), out.height()), (3, 2));
    for j in 0..2 {
        for i in 0..3 {
            assert_eq!(out.get_pixel(i, j), img.get_pixel(2 + i, 1 + j));
        }
    }
    assert_eq!(crop(&img, 0, 0, 7, 5).as_raw(), img.as_raw());
}

#[test]
fn crop_cuts_the_rectangle_down_to_the_image() {
    let img = numbered(7, 5);
    let out = crop(&img, 5, 3, 10, 10);
    assert_eq!((out.width(), out.height()), (2, 2));
    assert_eq!(out.get_pixel(0, 0), img.get_pixel(5, 3));
    assert_eq!(out.get_pixel(1, 1), img.get_pixel(6, 4));
    let past = crop(&img, 9, 2, 4, 1);
    assert_eq!((past.width(), past.height()), (0, 1));
    let far = crop(&img, u32::MAX, u32::MAX, u32::MAX, u32::MAX);
    assert_eq!((far.width(), far.height()), (0, 0));
    let whole = crop(&img, 0, 0, u32::MAX, u32::MAX);
    assert_eq!(whole.as_raw(), img.as_raw());
}

#[test]
fn crop_agrees_with_the_image_crate() {
    let img = numbered(9, 6);
    let same = image::RgbaImage::from_raw(9, 6, img.as_raw().clone()).unwrap();
    for (x, y, width, height) in [(0, 0, 9, 6), (3, 2, 4, 3), (8, 5, 5, 5), (9, 6, 1, 1), (20, 1, 2, 2), (4, 4, 0, 9)] {
        let expected = image::imageops::crop_imm(&same, x, y, width, height).to_image();
        let out = crop(&img, x, y, width, height);
        assert_eq!((out.width(), out.height()), (expected.width(), expected.height()));
        assert_eq!(out.as_raw(), expected.as_raw());
    }
}
