use oh_my_macro::frame::{expand_to_rgba, ColorKind, Frame, FrameError, Point, Rect, Rgb};
use oh_my_macro::png_decode::{check_header, frame_from_decoded};

#[test]
fn screen_pixels_are_translated_by_the_frame_origin() {
    let mut frame = Frame::blank(64, 48);
    let placed = Frame::new(64, 48, Point::new(100, 200), frame.rgba().to_vec()).unwrap();
    assert_eq!(placed.origin(), Point::new(100, 200));
    assert_eq!(
        placed.pixel_at_screen(Point::new(100, 200)),
        Some(Rgb::new(0, 0, 0))
    );
    assert_eq!(placed.pixel_at_screen(Point::new(99, 200)), None);
    frame.set_pixel(3, 4, Rgb::new(10, 20, 30));
    let placed = Frame::new(64, 48, Point::new(100, 200), frame.rgba().to_vec()).unwrap();
    assert_eq!(
        placed.pixel_at_screen(Point::new(103, 204)),
        Some(Rgb::new(10, 20, 30))
    );
}

#[test]
fn cropping_copies_rows_preserves_alpha_and_screen_coordinates() {
    let bytes: Vec<u8> = (0..48).collect();
    let frame = Frame::new(4, 3, Point::new(100, 200), bytes.clone()).unwrap();
    let crop = frame.crop(Rect::new(101, 201, 2, 2)).unwrap();
    assert_eq!(crop.origin(), Point::new(101, 201));
    assert_eq!(crop.rgba(), [&bytes[20..28], &bytes[36..44]].concat());
    assert_eq!(crop.pixel_at_screen(Point::new(101, 201)), frame.pixel(1, 1));
    assert_eq!(
        crop.crop(Rect::new(102, 202, 1, 1)).unwrap().rgba(),
        &bytes[40..44]
    );
}

#[test]
fn cropping_rejects_empty_outside_and_overflowing_rectangles() {
    let frame = Frame::blank(64, 48);
    for rect in [
        Rect::new(0, 0, 0, 1),
        Rect::new(-1, 0, 4, 4),
        Rect::new(60, 0, 5, 1),
        Rect::new(0, 47, 1, 2),
        Rect::new(i32::MAX, 0, i32::MAX, 1),
        Rect::new(i32::MIN, 0, i32::MAX, 1),
    ] {
        assert!(frame.crop(rect).is_none(), "{rect:?}");
    }
}

#[test]
fn a_mismatched_buffer_is_refused_instead_of_panicking() {
    assert!(Frame::new(10, 10, Point::new(0, 0), vec![0; 399]).is_none());
    assert!(Frame::new(0, 10, Point::new(0, 0), Vec::new()).is_none());
}

#[test]
fn a_blank_frame_is_blank_until_a_sampled_pixel_lights_up() {
    let mut frame = Frame::blank(10, 10);
    assert!(frame.is_blank());
    // Pixel 37 is the second sampled pixel.
    frame.set_pixel(7, 3, Rgb::new(200, 200, 200));
    assert!(!frame.is_blank());
    // Pixel 1 is never sampled.
    let mut other = Frame::blank(10, 10);
    other.set_pixel(1, 0, Rgb::new(255, 255, 255));
    assert!(other.is_blank());
}

#[test]
fn grayscale_and_rgb_rows_expand_to_rgba() {
    assert_eq!(
        expand_to_rgba(&[7, 9], ColorKind::Grayscale, 2).unwrap(),
        vec![7, 7, 7, 255, 9, 9, 9, 255]
    );
    assert_eq!(
        expand_to_rgba(&[7, 100], ColorKind::GrayscaleAlpha, 2).unwrap(),
        vec![7, 7, 7, 100]
    );
    assert_eq!(
        expand_to_rgba(&[1, 2, 3], ColorKind::Rgb, 3).unwrap(),
        vec![1, 2, 3, 255]
    );
    assert_eq!(
        expand_to_rgba(&[1, 2, 3, 4], ColorKind::Rgba, 4).unwrap(),
        vec![1, 2, 3, 4]
    );
    assert!(matches!(
        expand_to_rgba(&[1], ColorKind::Indexed, 1),
        Err(FrameError::Unsupported(_))
    ));
}

#[test]
fn colour_classes_follow_their_thresholds() {
    assert!(Rgb::new(12, 73, 206).is_frame_blue());
    assert!(Rgb::new(200, 24, 24).is_body_red());
    assert!(Rgb::new(30, 180, 30).is_preview_green());
    assert!(Rgb::new(200, 30, 30).is_preview_red());
    assert!(!Rgb::new(0, 0, 0).is_preview_green());
}

#[test]
fn a_decoded_header_must_be_a_still_image_with_pixels() {
    assert_eq!(check_header(4, 3, false), Ok(()));
    assert_eq!(
        check_header(0, 3, false),
        Err(FrameError::Unsupported("zero-sized image".to_owned()))
    );
    assert_eq!(
        check_header(4, 0, true),
        Err(FrameError::Unsupported("zero-sized image".to_owned()))
    );
    assert_eq!(
        check_header(4, 3, true),
        Err(FrameError::Unsupported("animated PNG frames are not supported".to_owned()))
    );
}

#[test]
fn a_decoded_buffer_becomes_an_rgba_frame_at_the_origin() {
    let gray = [10u8, 20, 30, 40];
    let frame = frame_from_decoded(&gray, ColorKind::Grayscale, 2, 2, 2).expect("2x2 grey");
    assert_eq!(frame.origin(), Point::new(0, 0));
    assert_eq!((frame.width(), frame.height()), (2, 2));
    assert_eq!(frame.pixel(1, 1), Some(Rgb::new(40, 40, 40)));
    assert_eq!(frame.rgba()[3], 255);
    assert_eq!(
        frame_from_decoded(&gray, ColorKind::Grayscale, 2, 3, 2).unwrap_err(),
        FrameError::Unsupported("unexpected pixel buffer size".to_owned())
    );
    assert_eq!(
        frame_from_decoded(&gray, ColorKind::Indexed, 2, 2, 2).unwrap_err(),
        FrameError::Unsupported("colour type Indexed is not supported".to_owned())
    );
}

fn encode_png(width: u32, height: u32, color: png::ColorType, data: &[u8], animated: bool) -> Vec<u8> {
    let mut bytes = Vec::new();
    {
        let mut encoder = png::Encoder::new(&mut bytes, width, height);
        encoder.set_color(color);
        encoder.set_depth(png::BitDepth::Eight);
        if animated {
            encoder.set_animated(1, 0).unwrap();
        }
        let mut writer = encoder.write_header().unwrap();
        writer.write_image_data(data).unwrap();
        writer.finish().unwrap();
    }
    bytes
}

#[test]
fn png_bytes_decode_to_an_rgba_frame_at_the_origin() {
    let bytes = encode_png(2, 1, png::ColorType::Rgb, &[10, 20, 30, 40, 50, 60], false);
    let frame = oh_my_macro::png_decode::frame_from_png_bytes(&bytes).unwrap();
    assert_eq!(frame.origin(), Point::new(0, 0));
    assert_eq!(frame.rgba(), &[10, 20, 30, 255, 40, 50, 60, 255]);
}

#[test]
fn png_bytes_in_grayscale_are_widened_to_rgba() {
    let bytes = encode_png(2, 2, png::ColorType::Grayscale, &[0, 7, 128, 255], false);
    let frame = oh_my_macro::png_decode::frame_from_png_bytes(&bytes).unwrap();
    assert_eq!(
        frame.rgba(),
        &[0, 0, 0, 255, 7, 7, 7, 255, 128, 128, 128, 255, 255, 255, 255, 255]
    );
}

#[test]
fn bytes_that_are_no_png_are_a_decoding_error() {
    let result = oh_my_macro::png_decode::frame_from_png_bytes(b"not a png at all");
    assert!(matches!(result, Err(FrameError::Decode(_))), "got {result:?}");
}

#[test]
fn an_animated_png_is_refused_before_decoding() {
    let bytes = encode_png(1, 1, png::ColorType::Rgba, &[1, 2, 3, 4], true);
    assert_eq!(
        oh_my_macro::png_decode::frame_from_png_bytes(&bytes).unwrap_err(),
        FrameError::Unsupported("animated PNG frames are not supported".to_owned())
    );
}

#[test]
fn a_missing_output_size_means_the_image_is_too_large() {
    assert_eq!(
        oh_my_macro::png_decode::frame_from_decode_result(Err(None)).unwrap_err(),
        FrameError::Unsupported("image too large".to_owned())
    );
    assert_eq!(
        oh_my_macro::png_decode::frame_from_decode_result(Err(Some("crc mismatch".to_owned())))
            .unwrap_err(),
        FrameError::Decode("crc mismatch".to_owned())
    );
}
