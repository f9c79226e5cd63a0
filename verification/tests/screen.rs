use obj_mesh::screen::{flip_frame, flip_rows, frame_len, CaptureError, CaptureResult};

#[test]
fn rows_change_places_top_to_bottom() {
    let mut image = vec![1, 2, 3, 4, 5, 6, 7, 8, 9, 10, 11, 12];
    flip_rows(&mut image, 4, 3);
    assert_eq!(image, vec![10, 11, 12, 7, 8, 9, 4, 5, 6, 1, 2, 3]);
    let mut image = vec![1, 2, 3, 4, 5, 6, 7, 8, 9, 10, 11, 12];
    flip_rows(&mut image, 3, 4);
    assert_eq!(image, vec![9, 10, 11, 12, 5, 6, 7, 8, 1, 2, 3, 4]);
}

#[test]
fn small_images_flip_too() {
    let mut image: Vec<u8> = vec![];
    flip_rows(&mut image, 0, 0);
    assert!(image.is_empty());
    flip_rows(&mut image, 5, 0);
    assert!(image.is_empty());
    flip_rows(&mut image, 0, 5);
    assert!(image.is_empty());
    let mut image = vec![1, 2, 3];
    flip_rows(&mut image, 1, 3);
    assert_eq!(image, vec![1, 2, 3]);
    flip_rows(&mut image, 3, 1);
    assert_eq!(image, vec![3, 2, 1]);
    let mut image = vec![1, 2, 3, 4];
    flip_rows(&mut image, 2, 2);
    assert_eq!(image, vec![3, 4, 1, 2]);
}

#[test]
fn flipping_twice_gives_the_image_back() {
    let image: Vec<u8> = (0..60).collect();
    let mut twice = image.clone();
    flip_rows(&mut twice, 5, 12);
    assert_ne!(twice, image);
    flip_rows(&mut twice, 5, 12);
    assert_eq!(twice, image);
}

#[test]
fn a_frame_is_flipped_by_rows_of_pixels() {
    // Two rows of two pixels of three bytes each.
    let mut frame = vec![1, 1, 1, 2, 2, 2, 3, 3, 3, 4, 4, 4];
    flip_frame(&mut frame, 2, 2, 3);
    assert_eq!(frame, vec![3, 3, 3, 4, 4, 4, 1, 1, 1, 2, 2, 2]);
    let mut empty: Vec<u8> = vec![];
    flip_frame(&mut empty, 0, usize::MAX, usize::MAX);
    assert!(empty.is_empty());
    flip_frame(&mut empty, 7, 0, 3);
    assert!(empty.is_empty());
}

#[test]
fn frame_len_is_the_product_if_it_fits() {
    assert_eq!(frame_len(480, 640, 3), Some(921600));
    assert_eq!(frame_len(1, 1, 1), Some(1));
    assert_eq!(frame_len(0, 640, 3), Some(0));
    assert_eq!(frame_len(480, 0, 3), Some(0));
    assert_eq!(frame_len(480, 640, 0), Some(0));
    assert_eq!(frame_len(usize::MAX, usize::MAX, 0), Some(0));
    assert_eq!(frame_len(usize::MAX, 1, 1), Some(usize::MAX));
    assert_eq!(frame_len(usize::MAX, 2, 1), None);
    assert_eq!(frame_len(usize::MAX, 1, 2), None);
    assert_eq!(frame_len(2, usize::MAX / 2 + 1, 1), None);
}

#[test]
fn a_capture_result_keeps_what_it_was_given() {
    let result = CaptureResult::new(921600, String::from("screenshot.png"));
    assert_eq!(result.bytes_written(), 921600);
    assert_eq!(result.path(), "screenshot.png");
}

#[test]
fn capture_errors_say_what_went_wrong() {
    assert_eq!(
        CaptureError::CouldNotCaptureFromFrameBuffer.message(),
        "The frame buffer map provided reported failing to read out the frame buffer data from the graphics device."
    );
    assert_eq!(
        CaptureError::CouldNotWriteImageData.message(),
        "We could not write out the screenshot to an image file."
    );
    let copy = CaptureError::CouldNotWriteImageData;
    assert!(matches!(copy, CaptureError::CouldNotWriteImageData));
}
