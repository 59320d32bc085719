use webp_bridge::flip::flip_into;
use webp_bridge::frame::{decoded_outcome, frame_len, info_outcome, ImageDims};
use webp_bridge::path::path_text;
use webp_bridge::status::{status_of, BridgeError, STATUS_FAILED, STATUS_OK};

fn dims(width: i32, height: i32) -> ImageDims {
    ImageDims { width, height }
}

/// A frame of `width` x `height` pixels whose bytes count up from `first`.
fn counting_frame(width: usize, height: usize, first: u8) -> Vec<u8> {
    (0..width * height * 4).map(|i| first.wrapping_add(i as u8)).collect()
}

#[test]
fn status_is_zero_only_on_success() {
    assert_eq!(status_of(&Ok::<(), BridgeError>(())), STATUS_OK);
    assert_eq!(STATUS_OK, 0);
    for e in [
        BridgeError::BadPath,
        BridgeError::Unreadable,
        BridgeError::NotAnImage,
        BridgeError::DecodeFailed,
        BridgeError::BufferTooSmall,
        BridgeError::Fault,
    ] {
        let s = status_of(&Err::<(), BridgeError>(e));
        assert_eq!(s, STATUS_FAILED);
        assert!(s < 0);
    }
}

#[test]
fn missing_file_reports_negative_status() {
    let r: Result<Vec<u8>, BridgeError> = Err(BridgeError::Unreadable);
    assert!(status_of(&r) < 0);
}

#[test]
fn info_success_reports_codec_dimensions() {
    let r = info_outcome(1, 640, 480);
    assert_eq!(r, Ok(dims(640, 480)));
    assert_eq!(status_of(&r), 0);
}

#[test]
fn info_failure_is_not_an_image() {
    assert_eq!(info_outcome(0, 640, 480), Err(BridgeError::NotAnImage));
    assert_eq!(info_outcome(0, 0, 0), Err(BridgeError::NotAnImage));
    assert!(status_of(&info_outcome(0, 0, 0)) < 0);
}

#[test]
fn info_with_non_positive_dimension_is_rejected() {
    assert_eq!(info_outcome(1, 0, 10), Err(BridgeError::NotAnImage));
    assert_eq!(info_outcome(1, 10, -3), Err(BridgeError::NotAnImage));
}

#[test]
fn decode_without_buffer_fails() {
    assert_eq!(decoded_outcome(false, 4, 4), Err(BridgeError::DecodeFailed));
    assert_eq!(decoded_outcome(true, 4, 0), Err(BridgeError::DecodeFailed));
    assert_eq!(decoded_outcome(true, 4, 5), Ok(dims(4, 5)));
}

#[test]
fn frame_len_is_width_times_height_times_four() {
    assert_eq!(frame_len(dims(2, 3)), Ok(24));
    assert_eq!(frame_len(dims(1, 1)), Ok(4));
}

#[test]
fn frame_len_of_largest_dimensions() {
    let expected = (i32::MAX as u128) * (i32::MAX as u128) * 4;
    let r = frame_len(dims(i32::MAX, i32::MAX));
    if expected <= usize::MAX as u128 {
        assert_eq!(r, Ok(expected as usize));
    } else {
        assert_eq!(r, Err(BridgeError::BufferTooSmall));
    }
}

#[test]
fn flip_places_last_row_first() {
    let (w, h) = (2usize, 3usize);
    let src = counting_frame(w, h, 0);
    let stride = w * 4;
    let mut dest = vec![0xAAu8; w * h * 4];
    assert_eq!(flip_into(&src, dims(2, 3), &mut dest), Ok(()));
    for r in 0..h {
        let from = h - 1 - r;
        assert_eq!(&dest[r * stride..(r + 1) * stride], &src[from * stride..(from + 1) * stride]);
    }
    let expected: Vec<u8> = vec![
        16, 17, 18, 19, 20, 21, 22, 23, 8, 9, 10, 11, 12, 13, 14, 15, 0, 1, 2, 3, 4, 5, 6, 7,
    ];
    assert_eq!(dest, expected);
}

#[test]
fn flip_keeps_bytes_after_the_frame() {
    let src = counting_frame(1, 2, 10);
    let mut dest = vec![0xEEu8; 11];
    assert_eq!(flip_into(&src, dims(1, 2), &mut dest), Ok(()));
    assert_eq!(dest, vec![14, 15, 16, 17, 10, 11, 12, 13, 0xEE, 0xEE, 0xEE]);
}

#[test]
fn flip_into_small_destination_fails_without_writing() {
    let src = counting_frame(2, 2, 1);
    let mut dest = vec![7u8; 15];
    assert_eq!(flip_into(&src, dims(2, 2), &mut dest), Err(BridgeError::BufferTooSmall));
    assert_eq!(dest, vec![7u8; 15]);
}

#[test]
fn flip_from_short_source_fails_without_writing() {
    let src = counting_frame(2, 2, 1);
    let mut dest = vec![7u8; 64];
    assert_eq!(flip_into(&src[..15], dims(2, 2), &mut dest), Err(BridgeError::DecodeFailed));
    assert_eq!(dest, vec![7u8; 64]);
}

#[test]
fn flip_of_huge_dimensions_fails_without_writing() {
    let src = counting_frame(1, 1, 0);
    let mut dest = vec![3u8; 8];
    assert_eq!(
        flip_into(&src, dims(i32::MAX, i32::MAX), &mut dest),
        Err(BridgeError::DecodeFailed)
    );
    assert_eq!(dest, vec![3u8; 8]);
}

#[test]
fn repeated_copies_are_identical() {
    let src = counting_frame(3, 4, 5);
    let mut first = vec![0u8; 48];
    let mut second = vec![9u8; 48];
    assert_eq!(flip_into(&src, dims(3, 4), &mut first), Ok(()));
    assert_eq!(flip_into(&src, dims(3, 4), &mut second), Ok(()));
    assert_eq!(first, second);
    let again = first.clone();
    assert_eq!(flip_into(&src, dims(3, 4), &mut first), Ok(()));
    assert_eq!(first, again);
}

#[test]
fn single_pixel_fills_four_bytes() {
    let src = vec![0x10u8, 0x20, 0x30, 0x40];
    let mut dest = vec![0u8; 4];
    assert_eq!(flip_into(&src, dims(1, 1), &mut dest), Ok(()));
    assert_eq!(dest, vec![0x10, 0x20, 0x30, 0x40]);
}

#[test]
fn path_text_accepts_utf8() {
    assert_eq!(path_text(b"images/cat.webp"), Ok("images/cat.webp".to_string()));
    let r = path_text("caf\u{e9}.webp".as_bytes()).unwrap();
    assert_eq!(r.chars().count(), 9);
    assert_eq!(r, "caf\u{e9}.webp");
}

#[test]
fn path_text_rejects_invalid_utf8() {
    assert_eq!(path_text(&[0x66, 0xFF, 0x6F]), Err(BridgeError::BadPath));
    assert_eq!(path_text(&[0xC3]), Err(BridgeError::BadPath));
    assert!(status_of(&path_text(&[0xFF])) < 0);
}
