use ascii_art::grid::{image_to_ascii, OutputCell, PixelImage};
use ascii_art::pixel::{rgba_to_brightness, Pixel};
use ascii_art::ramp::get_ascii_from_brightness;

fn px(r: u8, g: u8, b: u8, a: u8) -> Pixel {
    Pixel { r, g, b, a }
}

fn cell(glyph: char, r: u8, g: u8, b: u8, a: u8) -> OutputCell {
    OutputCell { glyph, color: px(r, g, b, a) }
}

#[test]
fn test_picture() {
    let image = PixelImage::new(100, 100, vec![px(0, 0, 0, 0); 100 * 100]).unwrap();
    let have = image_to_ascii(&image);
    let want = vec![vec![cell(' ', 0, 0, 0, 0); 100]; 100];
    assert_eq!(have, want);
}

#[test]
fn are_all_brightnesses_valid() {
    for i in u8::MIN..=u8::MAX {
        _ = get_ascii_from_brightness(i);
    }
}

#[test]
fn test_brightness() {
    assert_eq!(' ', get_ascii_from_brightness(0));
    assert_eq!('$', get_ascii_from_brightness(255));
}

#[test]
fn glyphs_at_intermediate_brightness() {
    assert_eq!(']', get_ascii_from_brightness(64));
    assert_eq!('v', get_ascii_from_brightness(128));
}

#[test]
fn brightness_of_opaque_pixels() {
    // White and black at full alpha sit at the ends of the range.
    assert_eq!(255, rgba_to_brightness(&px(255, 255, 255, 255)));
    assert_eq!(0, rgba_to_brightness(&px(0, 0, 0, 255)));
    // (21*100*255 + 72*50*255 + 1785*200) / (100*255) = 1810500 / 25500 = 71.
    assert_eq!(71, rgba_to_brightness(&px(100, 50, 200, 255)));
}

#[test]
fn brightness_inflates_blue_for_transparency() {
    // (1785*100) / (100*128) = 178500 / 12800, truncated to 13.
    assert_eq!(13, rgba_to_brightness(&px(0, 0, 100, 128)));
    // The same blue at full alpha contributes less: 178500 / 25500 = 7.
    assert_eq!(7, rgba_to_brightness(&px(0, 0, 100, 255)));
}

#[test]
fn brightness_saturates_at_255() {
    // At alpha 1 the blue term is inflated 255-fold and the sum overshoots.
    assert_eq!(255, rgba_to_brightness(&px(255, 255, 255, 1)));
}

#[test]
fn zero_alpha_pixel_has_brightness_zero() {
    assert_eq!(0, rgba_to_brightness(&px(200, 200, 200, 0)));
    assert_eq!(0, rgba_to_brightness(&px(0, 0, 255, 0)));
}

#[test]
fn grid_dimensions_match_image() {
    let image = PixelImage::new(3, 2, vec![px(9, 9, 9, 255); 6]).unwrap();
    let grid = image_to_ascii(&image);
    assert_eq!(3, grid.len());
    for column in &grid {
        assert_eq!(2, column.len());
    }
}

#[test]
fn grid_is_deterministic() {
    let pixels = vec![
        px(1, 2, 3, 255),
        px(200, 100, 50, 255),
        px(0, 0, 0, 0),
        px(255, 255, 255, 255),
        px(30, 60, 90, 128),
        px(5, 5, 5, 5),
    ];
    let image = PixelImage::new(2, 3, pixels).unwrap();
    let first = image_to_ascii(&image);
    let second = image_to_ascii(&image);
    assert_eq!(first, second);
}

#[test]
fn two_by_two_checkerboard() {
    // Row-major: white, black, black, white — all fully opaque.
    let pixels = vec![
        px(255, 255, 255, 255),
        px(0, 0, 0, 255),
        px(0, 0, 0, 255),
        px(255, 255, 255, 255),
    ];
    let image = PixelImage::new(2, 2, pixels).unwrap();
    let grid = image_to_ascii(&image);
    // The outer index is the image's x-coordinate, the inner its y-coordinate.
    assert_eq!(cell('$', 255, 255, 255, 255), grid[0][0]);
    assert_eq!(cell(' ', 0, 0, 0, 255), grid[1][0]);
    assert_eq!(cell(' ', 0, 0, 0, 255), grid[0][1]);
    assert_eq!(cell('$', 255, 255, 255, 255), grid[1][1]);
}

#[test]
fn transparent_pixel_keeps_its_color() {
    let image = PixelImage::new(1, 1, vec![px(10, 20, 30, 0)]).unwrap();
    let grid = image_to_ascii(&image);
    assert_eq!(cell(' ', 10, 20, 30, 0), grid[0][0]);
}

#[test]
fn new_rejects_mismatched_pixel_count() {
    assert!(PixelImage::new(2, 2, vec![px(0, 0, 0, 0); 3]).is_none());
    assert!(PixelImage::new(2, 2, vec![px(0, 0, 0, 0); 4]).is_some());
    assert!(PixelImage::new(0, 5, Vec::new()).is_some());
}
