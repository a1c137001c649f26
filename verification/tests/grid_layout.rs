use hexcompare::grid::{load_data_file_hex, COL_COUNT};

fn bytes(len: usize) -> Vec<u8> {
    (0..len).map(|k| (k * 7 + 3) as u8).collect()
}

#[test]
fn row_count_is_the_length_over_sixteen_rounded_up() {
    for len in [0usize, 1, 15, 16, 17, 31, 32, 33, 160, 1000] {
        let grid = load_data_file_hex(&bytes(len));
        assert_eq!(grid.len(), (len + COL_COUNT - 1) / COL_COUNT);
    }
}

#[test]
fn empty_buffer_gives_no_rows() {
    let grid = load_data_file_hex(&[]);
    assert!(grid.is_empty());
}

#[test]
fn every_row_but_the_last_is_full() {
    for len in [1usize, 16, 17, 40, 64, 65] {
        let grid = load_data_file_hex(&bytes(len));
        for row in &grid[..grid.len() - 1] {
            assert!(row.iter().all(|cell| cell.is_some()));
        }
    }
}

#[test]
fn cells_hold_the_bytes_in_reading_order() {
    let data = bytes(40);
    let grid = load_data_file_hex(&data);
    for (k, byte) in data.iter().enumerate() {
        assert_eq!(grid[k / COL_COUNT][k % COL_COUNT], Some(format!("{:02X}", byte)));
    }
}

#[test]
fn last_row_ends_in_absent_cells() {
    let grid = load_data_file_hex(&bytes(17));
    assert_eq!(grid.len(), 2);
    assert!(grid[1][0].is_some());
    for col in 1..COL_COUNT {
        assert_eq!(grid[1][col], None);
    }
}

#[test]
fn full_last_row_has_no_absent_cell() {
    let grid = load_data_file_hex(&bytes(32));
    assert_eq!(grid.len(), 2);
    assert!(grid[1].iter().all(|cell| cell.is_some()));
}

#[test]
fn one_row_of_known_bytes() {
    let grid = load_data_file_hex(&[0x00, 0x0A, 0xFF]);
    assert_eq!(grid.len(), 1);
    assert_eq!(grid[0][0].as_deref(), Some("00"));
    assert_eq!(grid[0][1].as_deref(), Some("0A"));
    assert_eq!(grid[0][2].as_deref(), Some("FF"));
    assert_eq!(grid[0][3], None);
}
