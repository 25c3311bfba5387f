use oh_my_macro::building_vision::{downsample, gray_image, keep_apart};
use oh_my_macro::frame::{Frame, Point};

#[test]
fn the_grayscale_holds_one_luma_byte_per_pixel() {
    let frame = Frame::new(2, 1, Point::new(0, 0), vec![255, 255, 255, 255, 10, 20, 30, 255]).unwrap();
    assert_eq!(gray_image(&frame), vec![255, 18]);
}

#[test]
fn downsampling_averages_each_block_and_drops_partial_edges() {
    let src = [0u8, 4, 8, 12, 2, 6, 10, 14];
    assert_eq!(downsample(&src, 4, 2, 2), (vec![3, 11], 2, 1));
    let src: Vec<u8> = (0..15).collect();
    // 5 × 3: the last column and the last row do not fill a block.
    assert_eq!(downsample(&src, 5, 3, 2), (vec![3, 5], 2, 1));
}

#[test]
fn the_greedy_suppression_keeps_distant_points_up_to_the_cap() {
    let points = [
        Point::new(0, 0),
        Point::new(10, 10),
        Point::new(30, 0),
        Point::new(5, 40),
        Point::new(100, 100),
    ];
    assert_eq!(keep_apart(&points, 16, 3), vec![0, 2, 3]);
    assert_eq!(keep_apart(&points, 16, 10), vec![0, 2, 3, 4]);
    assert_eq!(keep_apart(&points, 16, 0), vec![0]);
    assert_eq!(keep_apart(&[], 16, 3), Vec::<usize>::new());
}
