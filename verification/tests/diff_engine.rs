use hexcompare::diff::{cells_equal, get_diffs, DiffSet};
use hexcompare::grid::{load_data_file_hex, HexRow, COL_COUNT};

fn pairs(diffs: &DiffSet, rows: usize) -> Vec<(usize, usize)> {
    let mut found = Vec::new();
    for row in 0..rows {
        for col in 0..COL_COUNT {
            if diffs.contains(row, col) {
                found.push((row, col));
            }
        }
    }
    found
}

fn diff_of(a: &[u8], b: &[u8]) -> (DiffSet, usize) {
    let ga = load_data_file_hex(a);
    let gb = load_data_file_hex(b);
    (get_diffs(&ga, &gb), ga.len().max(gb.len()) + 1)
}

#[test]
fn one_differing_byte_gives_one_pair() {
    let a: Vec<u8> = (0..16).collect();
    let mut b = a.clone();
    b[5] = 0xEE;
    let (diffs, rows) = diff_of(&a, &b);
    assert_eq!(diffs.len(), 1);
    assert!(diffs.contains(0, 5));
    assert_eq!(pairs(&diffs, rows), vec![(0, 5)]);
}

#[test]
fn rows_beyond_the_shorter_grid_are_not_compared() {
    let a: Vec<u8> = (0..17).collect();
    let b: Vec<u8> = (0..16).collect();
    let (diffs, rows) = diff_of(&a, &b);
    assert!(diffs.is_empty());
    assert_eq!(diffs.len(), 0);
    assert_eq!(pairs(&diffs, rows), vec![]);

    let mut c = b.clone();
    c[0] = 0x77;
    c[15] = 0x78;
    let (diffs, rows) = diff_of(&a, &c);
    assert_eq!(pairs(&diffs, rows), vec![(0, 0), (0, 15)]);
    assert!(!diffs.contains(1, 0));
}

#[test]
fn diff_is_the_same_in_both_directions() {
    let a: Vec<u8> = (0..100).map(|k| (k * 3) as u8).collect();
    let b: Vec<u8> = (0..90).map(|k| if k % 7 == 0 { 0xAB } else { (k * 3) as u8 }).collect();
    let (ab, rows) = diff_of(&a, &b);
    let (ba, _) = diff_of(&b, &a);
    assert_eq!(ab.len(), ba.len());
    assert_eq!(pairs(&ab, rows), pairs(&ba, rows));
    assert!(!ab.is_empty());
}

#[test]
fn a_grid_does_not_differ_from_itself() {
    for len in [0usize, 1, 16, 17, 100] {
        let a: Vec<u8> = (0..len).map(|k| (k * 11) as u8).collect();
        let grid = load_data_file_hex(&a);
        let diffs = get_diffs(&grid, &grid);
        assert!(diffs.is_empty());
        assert_eq!(diffs.len(), 0);
    }
}

#[test]
fn a_cell_that_only_one_grid_fills_differs() {
    let a: Vec<u8> = (0..20).collect();
    let b: Vec<u8> = (0..18).collect();
    let (diffs, rows) = diff_of(&a, &b);
    assert_eq!(pairs(&diffs, rows), vec![(1, 2), (1, 3)]);
    assert_eq!(diffs.len(), 2);
}

#[test]
fn two_absent_cells_are_equal() {
    let a: Vec<u8> = vec![1, 2, 3];
    let b: Vec<u8> = vec![1, 9, 3];
    let (diffs, rows) = diff_of(&a, &b);
    assert_eq!(pairs(&diffs, rows), vec![(0, 1)]);
}

#[test]
fn diff_against_an_empty_grid_is_empty() {
    let a: Vec<u8> = (0..64).collect();
    let (diffs, rows) = diff_of(&a, &[]);
    assert!(diffs.is_empty());
    assert_eq!(pairs(&diffs, rows), vec![]);
}

#[test]
fn diff_reports_every_differing_cell_of_every_shared_row() {
    let a: Vec<u8> = vec![0x00; 48];
    let b: Vec<u8> = vec![0xFF; 40];
    let (diffs, rows) = diff_of(&a, &b);
    assert_eq!(diffs.len(), 48);
    let found = pairs(&diffs, rows);
    assert_eq!(found.len(), 48);
    assert_eq!(found[0], (0, 0));
    assert_eq!(found[47], (2, 15));
}

#[test]
fn columns_beyond_the_row_are_never_in_the_set() {
    let a: Vec<u8> = vec![0x00; 32];
    let b: Vec<u8> = vec![0xFF; 32];
    let (diffs, _) = diff_of(&a, &b);
    assert!(diffs.contains(0, 15));
    assert!(!diffs.contains(0, 16));
    assert!(!diffs.contains(0, 32));
    assert!(!diffs.contains(usize::MAX, 0));
}

#[test]
fn new_set_is_empty() {
    let diffs = DiffSet::new();
    assert!(diffs.is_empty());
    assert_eq!(diffs.len(), 0);
    assert!(!diffs.contains(0, 0));
}

#[test]
fn cells_compare_by_presence_and_text() {
    let none: Option<String> = None;
    let a = Some(String::from("0A"));
    let b = Some(String::from("0B"));
    assert!(cells_equal(&none, &none));
    assert!(cells_equal(&a, &a.clone()));
    assert!(!cells_equal(&a, &b));
    assert!(!cells_equal(&a, &none));
    assert!(!cells_equal(&none, &b));
}

#[test]
fn grids_written_by_hand_are_compared_as_they_stand() {
    let mut row1: HexRow = Default::default();
    let mut row2: HexRow = Default::default();
    row1[0] = Some(String::from("AA"));
    row2[0] = Some(String::from("AA"));
    row1[3] = Some(String::from("01"));
    row2[3] = Some(String::from("02"));
    row2[9] = Some(String::from("00"));
    let diffs = get_diffs(&[row1], &[row2]);
    assert_eq!(pairs(&diffs, 1), vec![(0, 3), (0, 9)]);
}
