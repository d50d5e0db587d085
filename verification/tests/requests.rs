use image_compositor::config::{find_key, Config};
use image_compositor::handler::{APIResponseError, ImageQuery, MessageResponse};
use image_compositor::image_manipulation::{
    asset_path, can_resize, flip_horizontal, out_of_bounds_index, prepare_avatar,
    smallify_large_number,
    ImageManipulationFunctionOptions, MemeKind, AVATAR_THRESHOLD, LONGEST_SIDE,
};
use image_compositor::raster::{RasterBuffer, Rgba};

fn vars(pairs: &[(&str, &str)]) -> Vec<(String, String)> {
    pairs.iter().map(|(k, v)| (k.to_string(), v.to_string())).collect()
}

#[test]
fn find_key_gives_the_first_value_under_the_key() {
    let list = vars(&[("A", "1"), ("B", "2"), ("A", "3"), ("", "4")]);
    assert_eq!(find_key(&list, "A"), "1");
    assert_eq!(find_key(&list, "B"), "2");
    assert_eq!(find_key(&list, ""), "4");
}

#[test]
fn config_listens_locally_in_development() {
    let config = Config::new(&vars(&[("IMAGE_API_PORT", "8080"), ("NODE_ENV", "development")]));
    assert!(!config.in_production);
    assert_eq!(config.server_addr, "127.0.0.1:8080");
}

#[test]
fn config_listens_everywhere_in_production() {
    let config = Config::new(&vars(&[
        ("PATH", "/bin"),
        ("NODE_ENV", "production"),
        ("IMAGE_API_PORT", "3000"),
        ("NODE_ENV", "development"),
    ]));
    assert!(config.in_production);
    assert_eq!(config.server_addr, "0.0.0.0:3000");
}

#[test]
fn api_response_error_reports_its_name() {
    let error = APIResponseError::new("it broke".to_string());
    assert_eq!(error.to_string(), "it broke");
    assert_eq!(APIResponseError::new(String::new()).to_string(), "");
}

#[test]
fn smallify_keeps_large_numbers_and_quarters_small_ones() {
    assert_eq!(smallify_large_number(603, true), 603);
    assert_eq!(smallify_large_number(603, false), 150);
    assert_eq!(smallify_large_number(397, false), 99);
    assert_eq!(smallify_large_number(35, false), 8);
    assert_eq!(smallify_large_number(3, false), 0);
    assert_eq!(smallify_large_number(u32::MAX, true), u32::MAX);
    assert_eq!(smallify_large_number(u32::MAX, false), u32::MAX / 4);
}

#[test]
fn query_choices_left_open_count_as_no() {
    let open = ImageQuery::new("u".to_string(), None, None).options();
    assert!(!open.large && !open.flip);
    let chosen = ImageQuery::new("u".to_string(), Some(true), Some(false)).options();
    assert!(chosen.large && !chosen.flip);
    let other = ImageQuery::new("u".to_string(), Some(false), Some(true)).options();
    assert!(!other.large && other.flip);
}

#[test]
fn query_address_is_turned_to_png() {
    let address = |url: &str| ImageQuery::new(url.to_string(), None, None).png_url();
    assert_eq!(address("https://cdn.example/a/b.gif"), "https://cdn.example/a/b.png");
    assert_eq!(address("https://cdn.example/a/b.jpg?size=64"), "https://cdn.example/a/b.png?size=64");
    assert_eq!(address("b.jpeg"), "b.png");
    assert_eq!(address("b.webp"), "b.png");
    assert_eq!(address("b.png"), "b.png");
    assert_eq!(address("a.gif/b.webp"), "a.png/b.png");
    assert_eq!(address(""), "");
}

#[test]
fn memes_go_by_their_names() {
    assert_eq!(MemeKind::from_key("enter"), Some(MemeKind::Enter));
    assert_eq!(MemeKind::from_key("exit"), Some(MemeKind::Exit));
    assert_eq!(MemeKind::from_key("Enter"), None);
    assert_eq!(MemeKind::from_key(""), None);
    assert_eq!(MemeKind::from_key("enter "), None);
    assert_eq!(MemeKind::Enter.template(), "enter.png");
    assert_eq!(MemeKind::Exit.template(), "exit.png");
}

#[test]
fn unknown_meme_gets_a_message() {
    let MessageResponse { message } = out_of_bounds_index();
    assert_eq!(message, "the provided image type does not exist");
}

#[test]
fn avatar_place_is_a_quarter_on_the_small_template() {
    for kind in [MemeKind::Enter, MemeKind::Exit] {
        assert_eq!((kind.avatar_x(true), kind.avatar_y(true), kind.avatar_dimensions(true)), (35, 397, 603));
        assert_eq!((kind.avatar_x(false), kind.avatar_y(false), kind.avatar_dimensions(false)), (8, 99, 150));
    }
    assert_eq!(AVATAR_THRESHOLD, 128);
}

#[test]
fn templates_lie_in_a_directory_for_each_size() {
    assert_eq!(asset_path("enter.png", true), "assets/images/1000/enter.png");
    assert_eq!(asset_path("exit.png", false), "assets/images/250/exit.png");
    assert_eq!(asset_path("", false), "assets/images/250/");
}

fn avatar() -> RasterBuffer {
    let mut img = RasterBuffer::new(6, 5).unwrap();
    for y in 0..5 {
        for x in 0..6 {
            let p = Rgba { red: (x * 40) as u8, green: (y * 50) as u8, blue: 128, alpha: 255 };
            img.put_pixel(x, y, p);
        }
    }
    img
}

fn as_image(img: &RasterBuffer) -> image::RgbaImage {
    image::RgbaImage::from_raw(img.width(), img.height(), img.as_raw().clone()).unwrap()
}

/// The avatar as the meme shows it, made with the `image` crate alone.
fn expected_avatar(flip: bool, side: u32) -> image::RgbaImage {
    let source = if flip { image::imageops::flip_horizontal(&as_image(&avatar())) } else { as_image(&avatar()) };
    let mut scaled = image::imageops::resize(&source, side, side, image::imageops::FilterType::Triangle);
    let half = (side / 2) as i64;
    for x in 0..side {
        for y in 0..side {
            if (x as i64 - half).pow(2) + (y as i64 - half).pow(2) > half * half {
                scaled.put_pixel(x, y, image::Rgba([0, 0, 0, 0]));
            }
        }
    }
    scaled
}

#[test]
fn prepared_avatar_is_mirrored_scaled_and_round() {
    for flip in [false, true] {
        let out = prepare_avatar(avatar(), flip, 20);
        assert_eq!((out.width(), out.height()), (20, 20));
        assert_eq!(out.as_raw(), expected_avatar(flip, 20).as_raw());
    }
    let plain = prepare_avatar(avatar(), false, 20);
    let mirrored = prepare_avatar(avatar(), true, 20);
    assert_ne!(plain.as_raw(), mirrored.as_raw());
    assert_eq!(plain.get_pixel(0, 0), Rgba::clear());
    assert_eq!(plain.get_pixel(10, 10).alpha, 255);
    assert!(plain.get_pixel(2, 10).red < plain.get_pixel(17, 10).red);
    assert!(mirrored.get_pixel(2, 10).red > mirrored.get_pixel(17, 10).red);
}

#[test]
fn prepared_avatar_of_its_own_size_is_only_made_round() {
    let square = RasterBuffer::from_pixel(4, 4, Rgba { red: 1, green: 2, blue: 3, alpha: 4 }).unwrap();
    let out = prepare_avatar(square, false, 4);
    assert_eq!(out.get_pixel(0, 0), Rgba::clear());
    assert_eq!(out.get_pixel(2, 2), Rgba { red: 1, green: 2, blue: 3, alpha: 4 });
    assert_eq!(out.get_pixel(0, 2), Rgba { red: 1, green: 2, blue: 3, alpha: 4 });
}

#[test]
fn meme_is_the_round_avatar_stamped_on_the_template() {
    let blue = Rgba { red: 0, green: 0, blue: 255, alpha: 255 };
    for (kind, flip) in [(MemeKind::Enter, false), (MemeKind::Exit, true)] {
        let template = RasterBuffer::from_pixel(250, 250, blue).unwrap();
        let options = ImageManipulationFunctionOptions { large: false, flip };
        let png = kind.render(avatar(), template, options).unwrap();
        let meme = image::load_from_memory_with_format(&png.encoding_bytes, image::ImageFormat::Png)
            .unwrap()
            .into_rgba8();
        assert_eq!((meme.width(), meme.height()), (250, 250));
        let stamped = expected_avatar(flip, 150);
        for y in 0..250u32 {
            for x in 0..250u32 {
                let inside = (8..158).contains(&x) && (99..249).contains(&y);
                let expected = if inside && stamped.get_pixel(x - 8, y - 99).0[3] > 128 {
                    stamped.get_pixel(x - 8, y - 99).0
                } else {
                    [0, 0, 255, 255]
                };
                assert_eq!(meme.get_pixel(x, y).0, expected, "at ({x}, {y})");
            }
        }
    }
}

#[test]
fn meme_needs_room_for_the_avatar() {
    let blue = Rgba { red: 0, green: 0, blue: 255, alpha: 255 };
    let options = || ImageManipulationFunctionOptions { large: false, flip: false };
    let narrow = RasterBuffer::from_pixel(157, 249, blue).unwrap();
    let error = MemeKind::Enter.render(avatar(), narrow, options()).err().unwrap();
    assert_eq!(error.to_string(), "The Image's dimensions are either too small or too large");
    let low = RasterBuffer::from_pixel(158, 248, blue).unwrap();
    assert!(MemeKind::Exit.render(avatar(), low, options()).is_err());
    let snug = RasterBuffer::from_pixel(158, 249, blue).unwrap();
    assert!(MemeKind::Enter.render(avatar(), snug, options()).is_ok());
    let large = ImageManipulationFunctionOptions { large: true, flip: false };
    let small_template = RasterBuffer::from_pixel(250, 250, blue).unwrap();
    assert!(MemeKind::Enter.render(avatar(), small_template, large).is_err());
}

#[test]
fn rasters_up_to_the_longest_side_can_be_resized() {
    assert!(can_resize(&avatar(), 150, 150));
    assert!(can_resize(&avatar(), 603, 603));
    assert!(can_resize(&avatar(), 0, 0));
    assert!(can_resize(&avatar(), 1, LONGEST_SIDE));
    assert!(!can_resize(&avatar(), 1, LONGEST_SIDE + 1));
    assert!(!can_resize(&avatar(), LONGEST_SIDE + 1, 1));
    assert!(can_resize(&RasterBuffer::new(LONGEST_SIDE, 1).unwrap(), 2, 2));
    assert!(!can_resize(&RasterBuffer::new(LONGEST_SIDE + 1, 1).unwrap(), 2, 2));
    assert!(!can_resize(&RasterBuffer::new(1, LONGEST_SIDE + 1).unwrap(), 2, 2));
    assert!(can_resize(&RasterBuffer::new(0, 0).unwrap(), 150, 150));
    assert!(can_resize(&RasterBuffer::new(0, 9).unwrap(), 150, 150));
    assert!(can_resize(&RasterBuffer::new(9, 0).unwrap(), 150, 150));
    assert!(!can_resize(&avatar(), u32::MAX, u32::MAX));
}

#[test]
fn mirrored_avatar_of_its_own_size_shows_each_row_backwards() {
    let mut square = RasterBuffer::new(4, 4).unwrap();
    for y in 0..4 {
        for x in 0..4 {
            square.put_pixel(x, y, Rgba { red: x as u8, green: y as u8, blue: 77, alpha: 200 });
        }
    }
    let out = prepare_avatar(square.clone(), true, 4);
    for y in 0..4u32 {
        for x in 0..4u32 {
            let far = (x as i64 - 2).pow(2) + (y as i64 - 2).pow(2) > 4;
            let expected = if far { Rgba::clear() } else { square.get_pixel(3 - x, y) };
            assert_eq!(out.get_pixel(x, y), expected, "at ({x}, {y})");
        }
    }
}

#[test]
fn query_gives_back_what_it_was_made_of() {
    let query = ImageQuery::new("https://cdn.example/a.webp".to_string(), Some(true), None);
    assert_eq!(query.url(), "https://cdn.example/a.webp");
    assert_eq!(query.large(), Some(true));
    assert_eq!(query.flip(), None);
}

#[test]
fn avatar_without_samples_is_prepared_as_a_transparent_square() {
    for (width, height) in [(0, 0), (0, 5), (5, 0)] {
        let out = prepare_avatar(RasterBuffer::new(width, height).unwrap(), true, 6);
        assert_eq!((out.width(), out.height()), (6, 6));
        assert_eq!(out.into_raw(), vec![0u8; 6 * 6 * 4]);
    }
    let none = prepare_avatar(avatar(), false, 0);
    assert_eq!((none.width(), none.height()), (0, 0));
}

#[test]
fn flip_shows_each_row_backwards() {
    let img = avatar();
    let out = flip_horizontal(&img);
    assert_eq!((out.width(), out.height()), (6, 5));
    for y in 0..5 {
        for x in 0..6 {
            assert_eq!(out.get_pixel(x, y), img.get_pixel(5 - x, y));
        }
    }
    assert_eq!(out.as_raw(), image::imageops::flip_horizontal(&as_image(&img)).as_raw());
    assert_eq!(flip_horizontal(&out).as_raw(), img.as_raw());
    let empty = flip_horizontal(&RasterBuffer::new(0, 3).unwrap());
    assert_eq!((empty.width(), empty.height()), (0, 3));
}
