use projbotv3::encode::{chunk_frames, encoder_slot_free, gif_count, gif_path, pad_gif, png_path, FAST_INTERNET_SIZE};

#[test]
fn gif_count_rounds_up() {
    assert_eq!(gif_count(0), 0);
    assert_eq!(gif_count(1), 1);
    assert_eq!(gif_count(125), 1);
    assert_eq!(gif_count(126), 2);
    assert_eq!(gif_count(250), 2);
    assert_eq!(gif_count(251), 3);
    assert_eq!(gif_count(usize::MAX), usize::MAX / 125 + 1);
}

#[test]
fn chunks_hold_five_seconds_each() {
    let c = chunk_frames(0, 300);
    assert_eq!(c.len(), 125);
    assert_eq!(c[0], (0, 1));
    assert_eq!(c[124], (124, 125));
    let c = chunk_frames(1, 300);
    assert_eq!(c.len(), 125);
    assert_eq!(c[0], (0, 126));
    assert_eq!(c[124], (124, 250));
    let c = chunk_frames(2, 300);
    assert_eq!(c.len(), 50);
    assert_eq!(c[0], (0, 251));
    assert_eq!(c[49], (49, 300));
}

#[test]
fn chunks_of_251_frames() {
    assert_eq!(gif_count(251), 3);
    assert_eq!(chunk_frames(0, 251).len(), 125);
    assert_eq!(chunk_frames(1, 251).len(), 125);
    assert_eq!(chunk_frames(2, 251), vec![(0, 251)]);
}

#[test]
fn chunks_past_the_end_are_empty() {
    assert!(chunk_frames(3, 300).is_empty());
    assert!(chunk_frames(0, 0).is_empty());
    assert_eq!(chunk_frames(0, 125).len(), 125);
    assert_eq!(chunk_frames(0, 126).len(), 125);
    assert_eq!(chunk_frames(1, 126), vec![(0, 126)]);
}

#[test]
fn every_frame_is_in_exactly_one_chunk() {
    let frames = 400;
    let mut seen = vec![0usize; frames + 1];
    for n in 0..gif_count(frames) {
        for (_, f) in chunk_frames(n, frames) {
            seen[f] += 1;
        }
    }
    assert_eq!(seen[0], 0);
    assert!(seen[1..].iter().all(|&c| c == 1));
}

#[test]
fn encoders_limited_to_six() {
    assert!(encoder_slot_free(0));
    assert!(encoder_slot_free(5));
    assert!(!encoder_slot_free(6));
    assert!(!encoder_slot_free(100));
}

#[test]
fn padding_for_fast_connections() {
    let mut b = vec![1u8, 2, 3];
    pad_gif(&mut b, true);
    assert_eq!(b.len(), FAST_INTERNET_SIZE);
    assert_eq!(&b[..3], &[1, 2, 3]);
    assert!(b[3..].iter().all(|&x| x == 0));
    let mut b = vec![1u8, 2, 3];
    pad_gif(&mut b, false);
    assert_eq!(b, vec![1, 2, 3]);
    let mut b = vec![9u8; FAST_INTERNET_SIZE + 1];
    pad_gif(&mut b, true);
    assert_eq!(b.len(), FAST_INTERNET_SIZE + 1);
}

#[test]
fn file_paths() {
    assert_eq!(gif_path(0), "vid_encoded/0");
    assert_eq!(gif_path(17), "vid_encoded/17");
    assert_eq!(png_path(1), "vid/1.png");
    assert_eq!(png_path(250), "vid/250.png");
}
