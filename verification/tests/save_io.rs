use snake::grid::{Grid, Position};
use snake::save::{decode_save, encode_save, u64_from_be_bytes, u64_to_be_bytes, SaveError};

#[test]
fn save_payload_layout() {
    let grid = Grid { width: 13, height: 3 };
    let food = Position { x: 8, y: 1 };
    let bytes = encode_save(&grid, food);
    assert_eq!(bytes.len(), 32);
    let mut expected = vec![0u8; 32];
    expected[7] = 13;
    expected[15] = 3;
    expected[23] = 8;
    expected[31] = 1;
    assert_eq!(bytes, expected);
}

#[test]
fn save_round_trip() {
    let grid = Grid { width: 80, height: 50 };
    let food = Position { x: 17, y: 42 };
    let bytes = encode_save(&grid, food);
    assert_eq!(decode_save(&bytes, &grid), Ok((17, 42)));
}

#[test]
fn load_rejects_wrong_length() {
    let grid = Grid { width: 80, height: 50 };
    let bytes = vec![0u8; 31];
    assert_eq!(decode_save(&bytes, &grid), Err(SaveError::WrongLength));
}

#[test]
fn load_rejects_width_mismatch() {
    let saved_grid = Grid { width: 80, height: 50 };
    let bytes = encode_save(&saved_grid, Position { x: 1, y: 2 });
    let other_grid = Grid { width: 81, height: 50 };
    assert_eq!(decode_save(&bytes, &other_grid), Err(SaveError::WidthMismatch));
}

#[test]
fn load_rejects_height_mismatch() {
    let saved_grid = Grid { width: 80, height: 50 };
    let bytes = encode_save(&saved_grid, Position { x: 1, y: 2 });
    let other_grid = Grid { width: 80, height: 51 };
    assert_eq!(decode_save(&bytes, &other_grid), Err(SaveError::HeightMismatch));
}

#[test]
fn big_endian_words_round_trip() {
    let values = [0u64, 1, 255, 256, 0x0102_0304_0506_0708, u64::MAX];
    for &v in values.iter() {
        let bytes = u64_to_be_bytes(v);
        assert_eq!(bytes.len(), 8);
        assert_eq!(u64_from_be_bytes(&bytes, 0), v);
    }
    assert_eq!(u64_to_be_bytes(0x0102_0304_0506_0708), vec![1, 2, 3, 4, 5, 6, 7, 8]);
}
