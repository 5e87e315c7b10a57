use freddie::menu_bar::{alpha_bounds, icon_size};

fn image(width: u32, height: u32, ink: &[(u32, u32, u8)]) -> Vec<u8> {
    let mut rgba = vec![0u8; (width * height * 4) as usize];
    for &(x, y, alpha) in ink {
        rgba[((y * width + x) * 4 + 3) as usize] = alpha;
    }
    rgba
}

#[test]
fn a_transparent_image_has_no_ink() {
    assert_eq!(alpha_bounds(&image(4, 3, &[]), 4, 3), None);
    assert_eq!(alpha_bounds(&image(4, 3, &[(1, 1, 16)]), 4, 3), None);
    assert_eq!(alpha_bounds(&[], 0, 0), None);
}

#[test]
fn the_bounds_are_the_first_and_last_inked_column_and_row() {
    let rgba = image(6, 5, &[(2, 1, 255), (4, 3, 17), (1, 2, 200)]);
    assert_eq!(alpha_bounds(&rgba, 6, 5), Some((1, 1, 4, 3)));
    let single = image(3, 3, &[(2, 2, 255)]);
    assert_eq!(alpha_bounds(&single, 3, 3), Some((2, 2, 2, 2)));
}

#[test]
fn the_icon_keeps_the_glyphs_aspect_at_thirty_pixels_tall() {
    assert_eq!(icon_size(20, 30), (28, 38));
    assert_eq!(icon_size(10, 30), (18, 38));
    assert_eq!(icon_size(7, 20), (19, 38));
    assert_eq!(icon_size(0, 0), (9, 38));
    assert_eq!(icon_size(3, 0), (98, 38));
}
