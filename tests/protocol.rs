use message_generator::message::Bounds;
use message_generator::protocol::{checksum, clamp, decode_frame, encode_frame};

#[test]
fn checksum_of_known_bytes() {
    assert_eq!(checksum(&vec![1, 2, 3]), 6 * 256 + 10);
    assert_eq!(checksum(&vec![]), 0);
}

#[test]
fn checksum_sums_wrap_at_256() {
    assert_eq!(checksum(&vec![200, 100]), 44 * 256 + 244);
}

#[test]
fn frame_layout() {
    let frame = encode_frame(5, &vec![1, 2, 3]);
    assert_eq!(frame, vec![0xFF, 0xFF, 5, 3, 1, 2, 3, 47, 14]);
}

#[test]
fn frame_round_trip() {
    let payload: Vec<u8> = (0..=200u8).collect();
    let frame = encode_frame(42, &payload);
    assert_eq!(frame.len(), payload.len() + 6);
    assert_eq!(decode_frame(&frame), Some((42, payload)));
    let empty = encode_frame(0, &vec![]);
    assert_eq!(decode_frame(&empty), Some((0, vec![])));
}

#[test]
fn damaged_frames_are_refused() {
    let mut frame = encode_frame(5, &vec![1, 2, 3]);
    frame[5] = 9;
    assert_eq!(decode_frame(&frame), None);
    assert_eq!(decode_frame(&vec![0xFF, 0xFF, 1]), None);
    let mut bad_sync = encode_frame(5, &vec![1]);
    bad_sync[0] = 0;
    assert_eq!(decode_frame(&bad_sync), None);
}

#[test]
fn clamping_settles_on_the_nearest_bound() {
    let b = Bounds { min: -10, max: 100 };
    assert_eq!(clamp(&b, 150), 100);
    assert_eq!(clamp(&b, clamp(&b, 150)), 100);
    assert_eq!(clamp(&b, -50), -10);
    assert_eq!(clamp(&b, clamp(&b, -50)), -10);
    assert_eq!(clamp(&b, 42), 42);
}
