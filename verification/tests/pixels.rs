use pathfinder_gl::pixels::flip_y;
use pathfinder_gl::types::Vector2I;

#[test]
fn flip_y_reverses_rows() {
    // Three rows of two pixels with two channels each.
    let mut pixels: Vec<u8> = (0..12).collect();
    flip_y(&mut pixels, Vector2I::new(2, 3), 2);
    assert_eq!(pixels, vec![8, 9, 10, 11, 4, 5, 6, 7, 0, 1, 2, 3]);
}

#[test]
fn flip_y_even_rows() {
    let mut pixels: Vec<u16> = vec![1, 2, 3, 4];
    flip_y(&mut pixels, Vector2I::new(1, 4), 1);
    assert_eq!(pixels, vec![4, 3, 2, 1]);
}

#[test]
fn flip_y_twice_is_identity() {
    let original: Vec<u8> = (0..60).collect();
    let mut pixels = original.clone();
    flip_y(&mut pixels, Vector2I::new(3, 5), 4);
    assert_ne!(pixels, original);
    flip_y(&mut pixels, Vector2I::new(3, 5), 4);
    assert_eq!(pixels, original);
}

#[test]
fn flip_y_single_row_is_unchanged() {
    let mut pixels: Vec<u8> = vec![1, 2, 3, 4];
    flip_y(&mut pixels, Vector2I::new(4, 1), 1);
    assert_eq!(pixels, vec![1, 2, 3, 4]);
}

#[test]
fn flip_y_leaves_trailing_elements() {
    let mut pixels: Vec<u8> = vec![1, 2, 3, 4, 99];
    flip_y(&mut pixels, Vector2I::new(2, 2), 1);
    assert_eq!(pixels, vec![3, 4, 1, 2, 99]);
}
