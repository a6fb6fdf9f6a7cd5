use oxide::display::{default_pixels, Display, SCREEN_HEIGHT, SCREEN_PIXELS, SCREEN_WIDTH};

#[test]
fn new_display_is_blank_64_by_32() {
    let d = Display::new();
    assert_eq!(SCREEN_WIDTH * SCREEN_HEIGHT, SCREEN_PIXELS);
    assert_eq!(d.pixels.len(), 64 * 32);
    assert!(d.pixels.iter().all(|p| *p == 0));
    assert_eq!(default_pixels(), vec![0u8; 2048]);
}

#[test]
fn set_pixel_lights_then_reports_collision() {
    let mut d = Display::new();
    assert!(!d.set_pixel(3, 2));
    assert!(d.get_pixel(3, 2));
    assert_eq!(d.pixels[2 * 64 + 3], 1);
    assert!(d.set_pixel(3, 2));
    assert!(!d.get_pixel(3, 2));
}

#[test]
fn drawing_twice_restores_the_screen() {
    let mut d = Display::new();
    d.set_pixel(10, 5);
    let before = d.pixels.clone();
    d.set_pixel(63, 31);
    d.set_pixel(63, 31);
    assert_eq!(d.pixels, before);
}

#[test]
fn set_pixel_touches_only_its_pixel() {
    let mut d = Display::new();
    d.set_pixel(0, 1);
    let lit: Vec<usize> = (0..2048).filter(|i| d.pixels[*i] != 0).collect();
    assert_eq!(lit, vec![64]);
}

#[test]
fn clear_turns_every_pixel_off() {
    let mut d = Display::new();
    d.set_pixel(1, 1);
    d.set_pixel(5, 7);
    d.clear();
    assert_eq!(d.pixels, vec![0u8; 2048]);
    assert!(!d.get_pixel(1, 1));
}

#[test]
fn non_binary_pixel_counts_as_lit() {
    let mut d = Display { pixels: vec![0u8; 2048] };
    d.pixels[7] = 2;
    assert!(d.get_pixel(7, 0));
    assert!(d.set_pixel(7, 0));
    assert_eq!(d.pixels[7], 3);
}
