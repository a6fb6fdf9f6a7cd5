use oxide::icon::{terminal_window_icon, ICON_SIZE};

fn px(rgba: &[u8], x: usize, y: usize) -> [u8; 4] {
    let i = (y * 32 + x) * 4;
    [rgba[i], rgba[i + 1], rgba[i + 2], rgba[i + 3]]
}

#[test]
fn terminal_icon_layout() {
    let rgba = terminal_window_icon();
    assert_eq!(rgba.len(), (ICON_SIZE * ICON_SIZE * 4) as usize);
    assert_eq!(px(&rgba, 0, 0), [30, 30, 30, 255]);
    assert_eq!(px(&rgba, 31, 20), [30, 30, 30, 255]);
    assert_eq!(px(&rgba, 5, 3), [50, 50, 50, 255]);
    assert_eq!(px(&rgba, 5, 6), [12, 12, 12, 255]);
    for (x, y) in [(8, 14), (10, 15), (8, 16), (11, 15), (12, 15), (13, 15), (14, 15)] {
        assert_eq!(px(&rgba, x, y), [120, 220, 120, 255]);
    }
    assert_eq!(px(&rgba, 9, 15), [12, 12, 12, 255]);
    let green = (0..1024).filter(|p| rgba[p * 4 + 1] == 220).count();
    assert_eq!(green, 7);
}
