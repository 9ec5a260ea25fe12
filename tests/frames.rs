use lighthouse_client::{Color, DecodeError, Display, LighthouseDisplay, ShapeError, LIGHTHOUSE_COLS, LIGHTHOUSE_ROWS, LIGHTHOUSE_SIZE};

type Small = Display<2, 2>;
type Full = LighthouseDisplay;

#[test]
fn fill_red_encodes_and_decodes() {
    let red = Color::new(255, 0, 0);
    let frame = Small::fill(red);
    let bytes = frame.encode();
    assert_eq!(bytes, vec![255, 0, 0, 255, 0, 0, 255, 0, 0, 255, 0, 0]);
    let back = Small::decode(&bytes).unwrap();
    assert!(back == frame);
}

#[test]
fn generate_is_row_major() {
    let frame = Small::generate(|x, y| Color::new(x as u8, y as u8, 0));
    let expected = vec![
        Color::new(0, 0, 0),
        Color::new(1, 0, 0),
        Color::new(0, 1, 0),
        Color::new(1, 1, 0),
    ];
    assert!(frame == Small::new(expected).unwrap());
    assert_eq!(frame.encode(), vec![0, 0, 0, 1, 0, 0, 0, 1, 0, 1, 1, 0]);
}

#[test]
fn generate_matches_index_formula_on_device_shape() {
    let frame = Full::generate(|x, y| Color::new(x as u8, y as u8, (x + y) as u8));
    let bytes = frame.encode();
    assert_eq!(bytes.len(), 3 * LIGHTHOUSE_SIZE);
    for y in 0..LIGHTHOUSE_ROWS {
        for x in 0..LIGHTHOUSE_COLS {
            let i = y * LIGHTHOUSE_COLS + x;
            assert_eq!(&bytes[3 * i..3 * i + 3], &[x as u8, y as u8, (x + y) as u8]);
        }
    }
}

#[test]
fn round_trip_of_mixed_frame() {
    let pixels: Vec<Color> = (0..4u8).map(|i| Color::new(i, 10 * i, 255 - i)).collect();
    let frame = Small::new(pixels).unwrap();
    let bytes = frame.encode();
    assert_eq!(bytes, vec![0, 0, 255, 1, 10, 254, 2, 20, 253, 3, 30, 252]);
    assert!(Small::decode(&bytes).unwrap() == frame);
}

#[test]
fn round_trip_on_device_shape() {
    let frame = Full::fill(Color::new(1, 2, 3));
    let bytes = frame.encode();
    assert_eq!(bytes.len(), 1176);
    assert!(Full::decode(&bytes).unwrap() == frame);
}

#[test]
fn decode_rejects_partial_pixel() {
    assert_eq!(Small::decode(&[0u8; 7]).err(), Some(DecodeError::BadLength));
    assert_eq!(Small::decode(&[0u8; 13]).err(), Some(DecodeError::BadLength));
}

#[test]
fn decode_rejects_wrong_pixel_count() {
    assert_eq!(Small::decode(&[0u8; 6]).err(), Some(DecodeError::ShapeMismatch));
    assert_eq!(Small::decode(&[]).err(), Some(DecodeError::ShapeMismatch));
    assert_eq!(Full::decode(&[0u8; 12]).err(), Some(DecodeError::ShapeMismatch));
}

#[test]
fn decode_reads_channels_in_order() {
    let frame = Small::decode(&[1, 2, 3, 4, 5, 6, 7, 8, 9, 10, 11, 12]).unwrap();
    let expected = Small::new(vec![
        Color::new(1, 2, 3),
        Color::new(4, 5, 6),
        Color::new(7, 8, 9),
        Color::new(10, 11, 12),
    ])
    .unwrap();
    assert!(frame == expected);
}

#[test]
fn new_rejects_wrong_length() {
    let e = Small::new(vec![Color::new(0, 0, 0); 3]).err();
    assert_eq!(e, Some(ShapeError { expected: 4, actual: 3 }));
    let e = Full::new(vec![Color::new(0, 0, 0); 5]).err();
    assert_eq!(e, Some(ShapeError { expected: LIGHTHOUSE_SIZE, actual: 5 }));
    assert!(Small::new(vec![Color::new(0, 0, 0); 4]).is_ok());
}

#[test]
fn frames_compare_by_pixels() {
    let a = Small::fill(Color::new(9, 9, 9));
    let b = Small::fill(Color::new(9, 9, 9));
    let c = Small::generate(|x, _| Color::new(9, 9, if x == 0 { 9 } else { 8 }));
    assert!(a == b);
    assert!(a != c);
}
