use sunnyday::palette::{classify_grid, classify_pixel, GRID_PIXELS};

fn grid_of(color: [u8; 4]) -> Vec<u8> {
    let mut v: Vec<u8> = Vec::with_capacity(GRID_PIXELS * 4);
    for _ in 0..GRID_PIXELS {
        v.extend_from_slice(&color);
    }
    v
}

fn mean(sum: u32) -> f64 {
    sum as f64 / GRID_PIXELS as f64
}

#[test]
fn classify_transparent_grid_test() {
    let g = grid_of([0, 0, 0, 0]);
    let sum = classify_grid(&g).unwrap();
    assert_eq!(sum, 0);
    assert_eq!(mean(sum), 0.0);

    let g = grid_of([255, 255, 255, 0]);
    assert_eq!(classify_grid(&g).unwrap(), 0);
}

#[test]
fn classify_violet_grid_test() {
    let g = grid_of([180, 0, 104, 255]);
    let sum = classify_grid(&g).unwrap();
    assert_eq!(sum, 100 * GRID_PIXELS as u32);
    assert_eq!(mean(sum), 100.0);
}

#[test]
fn classify_band_weights_test() {
    assert_eq!(classify_pixel(180, 0, 104, 255), Some(100));
    assert_eq!(classify_pixel(255, 40, 0, 255), Some(80));
    assert_eq!(classify_pixel(255, 153, 0, 255), Some(50));
    assert_eq!(classify_pixel(250, 245, 0, 255), Some(30));
    assert_eq!(classify_pixel(0, 65, 255, 255), Some(20));
    assert_eq!(classify_pixel(33, 140, 255, 255), Some(10));
    assert_eq!(classify_pixel(160, 210, 255, 255), Some(5));
    assert_eq!(classify_pixel(242, 242, 255, 255), Some(1));
    assert_eq!(classify_pixel(0, 0, 0, 0), Some(0));
    assert_eq!(classify_pixel(255, 255, 255, 0), Some(0));
    assert_eq!(classify_pixel(1, 2, 3, 4), None);
    // An opaque white pixel is outside the palette: only the transparent
    // white counts as clear.
    assert_eq!(classify_pixel(255, 255, 255, 255), None);
}

#[test]
fn classify_single_bad_pixel_test() {
    // One pixel outside the palette fails the whole grid, regardless of
    // the other 65535 pixels.
    let mut g = grid_of([180, 0, 104, 255]);
    let bad: usize = 12345;
    g[4 * bad] = 9;
    g[4 * bad + 1] = 9;
    g[4 * bad + 2] = 9;
    g[4 * bad + 3] = 9;
    let e = classify_grid(&g).unwrap_err();
    assert_eq!(e.index, bad);
}

#[test]
fn classify_mixed_grid_test() {
    // Half clear, half the lightest band: the sum counts each pixel.
    let mut g = grid_of([0, 0, 0, 0]);
    for i in 0..(GRID_PIXELS / 2) {
        g[4 * i] = 242;
        g[4 * i + 1] = 242;
        g[4 * i + 2] = 255;
        g[4 * i + 3] = 255;
    }
    let sum = classify_grid(&g).unwrap();
    assert_eq!(sum, (GRID_PIXELS / 2) as u32);
    assert_eq!(mean(sum), 0.5);
}
