//! The cells in which two hex grids differ.

use crate::grid::{
    cell_text, encoded_cell, encodes, grid_cell, lemma_encoded_cells_compare, HexRow, COL_COUNT,
};
use std::collections::HashSet;
use vstd::prelude::*;
use vstd::set_lib::lemma_map_size;

verus! {

broadcast use vstd::std_specs::hash::group_hash_axioms;

/// Whether both grids have row `i` and hold different things in column `j`
/// of it. Two absent cells are equal; an absent cell differs from every text.
pub open spec fn differs_at(a: Seq<HexRow>, b: Seq<HexRow>, i: int, j: int) -> bool {
    &&& 0 <= i < a.len()
    &&& i < b.len()
    &&& 0 <= j < COL_COUNT
    &&& grid_cell(a, i, j) != grid_cell(b, i, j)
}

/// The (row, column) pairs in which two grids differ, over the rows that both
/// have.
pub open spec fn diff_positions(a: Seq<HexRow>, b: Seq<HexRow>) -> Set<(int, int)> {
    Set::new(|p: (int, int)| differs_at(a, b, p.0, p.1))
}

/// The differing cells do not depend on the order of the two grids.
pub proof fn lemma_diff_symmetric(a: Seq<HexRow>, b: Seq<HexRow>)
    ensures
        diff_positions(a, b) == diff_positions(b, a),
{
    assert(diff_positions(a, b) =~= diff_positions(b, a));
}

/// A grid does not differ from itself.
pub proof fn lemma_diff_identity(a: Seq<HexRow>)
    ensures
        diff_positions(a, a) == Set::<(int, int)>::empty(),
{
    assert(diff_positions(a, a) =~= Set::<(int, int)>::empty());
}

/// No differing cell lies outside the rows that both grids have.
pub proof fn lemma_diff_within_shared_rows(a: Seq<HexRow>, b: Seq<HexRow>, i: int, j: int)
    requires
        diff_positions(a, b).contains((i, j)),
    ensures
        0 <= i < a.len(),
        i < b.len(),
        0 <= j < COL_COUNT,
{
}

/// Between the grids of two buffers, a cell of a shared row differs exactly
/// when the two bytes at its place differ, or when only one buffer reaches it.
pub proof fn lemma_diff_of_encoded(
    ga: Seq<HexRow>,
    gb: Seq<HexRow>,
    a: Seq<u8>,
    b: Seq<u8>,
    i: int,
    j: int,
)
    requires
        encodes(ga, a),
        encodes(gb, b),
        0 <= i < ga.len(),
        i < gb.len(),
        0 <= j < COL_COUNT,
    ensures
        diff_positions(ga, gb).contains((i, j)) <==> ({
            let k = i * COL_COUNT + j;
            if k < a.len() && k < b.len() {
                a[k] != b[k]
            } else {
                k < a.len() || k < b.len()
            }
        }),
{
    assert(grid_cell(ga, i, j) == encoded_cell(a, i, j));
    assert(grid_cell(gb, i, j) == encoded_cell(b, i, j));
    lemma_encoded_cells_compare(a, b, i, j);
}

/// Whether two cells hold the same thing.
pub fn cells_equal(a: &Option<String>, b: &Option<String>) -> (same: bool)
    ensures
        same == (cell_text(*a) == cell_text(*b)),
{
    match (a, b) {
        (None, None) => true,
        (Some(x), Some(y)) => *x == *y,
        _ => false,
    }
}

/// The number under which a cell is kept: its place in reading order.
pub open spec fn cell_key(row: int, col: int) -> int {
    row * COL_COUNT + col
}

/// The cell that is kept under `key`.
pub open spec fn key_cell(key: u128) -> (int, int) {
    (key as int / COL_COUNT as int, key as int % COL_COUNT as int)
}

/// A set of (row, column) pairs, asked by exact pair. A pair is kept as one
/// number, its place in reading order, which fits in 128 bits for every row.
#[derive(Debug)]
pub struct DiffSet {
    keys: HashSet<u128>,
}

impl View for DiffSet {
    type V = Set<(int, int)>;

    closed spec fn view(&self) -> Set<(int, int)> {
        self.keys@.map(|key: u128| key_cell(key))
    }
}

/// The key of a cell fits in 128 bits and leads back to the cell.
proof fn lemma_key_round_trip(row: int, col: int)
    requires
        0 <= row <= usize::MAX,
        0 <= col < COL_COUNT,
    ensures
        0 <= cell_key(row, col) <= u128::MAX,
        key_cell(cell_key(row, col) as u128) == (row, col),
{
}

/// The cell of a key is a cell of the grid and leads back to the key.
proof fn lemma_cell_round_trip(key: u128)
    ensures
        0 <= key_cell(key).0,
        0 <= key_cell(key).1 < COL_COUNT,
        cell_key(key_cell(key).0, key_cell(key).1) == key,
{
}

impl DiffSet {
    #[verifier::type_invariant]
    spec fn keys_finite(self) -> bool {
        self.keys@.finite()
    }

    /// A set is finite, and a pair is in it exactly when its key is kept.
    proof fn lemma_view(self)
        requires
            self.keys@.finite(),
        ensures
            self@.finite(),
            self@.len() == self.keys@.len(),
            forall|row: int, col: int|
                0 <= row <= usize::MAX && 0 <= col < COL_COUNT ==> (#[trigger] self@.contains(
                    (row, col),
                ) <==> self.keys@.contains(cell_key(row, col) as u128)),
            forall|p: (int, int)| #[trigger]
                self@.contains(p) ==> 0 <= p.0 && 0 <= p.1 < COL_COUNT && cell_key(p.0, p.1)
                    <= u128::MAX && self.keys@.contains(cell_key(p.0, p.1) as u128),
    {
        let decode = |key: u128| key_cell(key);
        assert(vstd::relations::injective_on(decode, self.keys@)) by {
            assert forall|x: u128, y: u128|
                self.keys@.contains(x) && self.keys@.contains(y) && #[trigger] decode(x)
                    == #[trigger] decode(y) implies x == y by {
                lemma_cell_round_trip(x);
                lemma_cell_round_trip(y);
            }
        }
        lemma_map_size(self.keys@, self@, decode);
        assert forall|row: int, col: int|
            0 <= row <= usize::MAX && 0 <= col < COL_COUNT implies (#[trigger] self@.contains(
            (row, col),
        ) <==> self.keys@.contains(cell_key(row, col) as u128)) by {
            lemma_key_round_trip(row, col);
            let key = cell_key(row, col) as u128;
            if self.keys@.contains(key) {
                assert(decode(key) == (row, col));
            }
            if self@.contains((row, col)) {
                let k = choose|k: u128| self.keys@.contains(k) && (row, col) == decode(k);
                lemma_cell_round_trip(k);
            }
        }
        assert forall|p: (int, int)| #[trigger] self@.contains(p) implies 0 <= p.0 && 0 <= p.1
            < COL_COUNT && cell_key(p.0, p.1) <= u128::MAX && self.keys@.contains(
            cell_key(p.0, p.1) as u128,
        ) by {
            let k = choose|k: u128| self.keys@.contains(k) && p == decode(k);
            lemma_cell_round_trip(k);
        }
    }

    /// The set without any pair.
    pub fn new() -> (set: DiffSet)
        ensures
            set@ == Set::<(int, int)>::empty(),
    {
        let set = DiffSet { keys: HashSet::new() };
        assert(set@ =~= Set::<(int, int)>::empty());
        set
    }

    /// Whether the pair (`row`, `col`) is in the set.
    pub fn contains(&self, row: usize, col: usize) -> (found: bool)
        ensures
            found == self@.contains((row as int, col as int)),
    {
        proof {
            use_type_invariant(self);
            self.lemma_view();
        }
        if col >= COL_COUNT {
            false
        } else {
            let cols: u128 = COL_COUNT as u128;
            assert(cols == 16);
            let key: u128 = (row as u128) * cols + (col as u128);
            self.keys.contains(&key)
        }
    }

    /// Number of pairs in the set.
    pub fn len(&self) -> (n: usize)
        ensures
            self@.finite(),
            n == self@.len(),
    {
        proof {
            use_type_invariant(self);
            self.lemma_view();
        }
        self.keys.len()
    }

    /// Whether the set has no pair.
    pub fn is_empty(&self) -> (empty: bool)
        ensures
            empty == (self@ == Set::<(int, int)>::empty()),
    {
        proof {
            use_type_invariant(self);
            self.lemma_view();
            if self.keys@.len() == 0 {
                assert(self@ =~= Set::<(int, int)>::empty());
            }
        }
        self.keys.len() == 0
    }
}

/// Whether cell (`row`, `col`) comes before cell (`i`, `j`) in reading order.
spec fn reads_before(row: int, col: int, i: int, j: int) -> bool {
    row < i || (row == i && col < j)
}

/// Compares two grids cell by cell, over the rows that both have, and gives
/// the set of (row, column) pairs whose cells differ.
pub fn get_diffs(lines1: &[HexRow], lines2: &[HexRow]) -> (diffs: DiffSet)
    ensures
        diffs@ == diff_positions(lines1@, lines2@),
        diffs@.finite(),
{
    let rows: usize = if lines1.len() <= lines2.len() {
        lines1.len()
    } else {
        lines2.len()
    };
    assert(COL_COUNT == 16);
    // room for one cell in ten of the first grid
    let hint: usize = if lines1.len() <= usize::MAX / COL_COUNT {
        lines1.len() * COL_COUNT / 10
    } else {
        lines1.len() / 10
    };
    let mut keys: HashSet<u128> = HashSet::with_capacity(hint);
    let mut i: usize = 0;
    while i < rows
        invariant
            i <= rows,
            rows <= lines1@.len(),
            rows <= lines2@.len(),
            keys@.finite(),
            forall|key: u128| #[trigger]
                keys@.contains(key) <==> differs_at(
                    lines1@,
                    lines2@,
                    key_cell(key).0,
                    key_cell(key).1,
                ) && reads_before(key_cell(key).0, key_cell(key).1, i as int, 0),
        decreases rows - i,
    {
        let line1 = &lines1[i];
        let line2 = &lines2[i];
        let mut j: usize = 0;
        while j < COL_COUNT
            invariant
                i < rows,
                rows <= lines1@.len(),
                rows <= lines2@.len(),
                j <= COL_COUNT,
                *line1 == lines1@[i as int],
                *line2 == lines2@[i as int],
                keys@.finite(),
                forall|key: u128| #[trigger]
                    keys@.contains(key) <==> differs_at(
                        lines1@,
                        lines2@,
                        key_cell(key).0,
                        key_cell(key).1,
                    ) && reads_before(key_cell(key).0, key_cell(key).1, i as int, j as int),
            decreases COL_COUNT - j,
        {
            if !cells_equal(&line1[j], &line2[j]) {
                let cols: u128 = COL_COUNT as u128;
                assert(cols == 16);
                let key: u128 = (i as u128) * cols + (j as u128);
                proof {
                    lemma_key_round_trip(i as int, j as int);
                }
                keys.insert(key);
            }
            j += 1;
        }
        i += 1;
    }
    let diffs = DiffSet { keys };
    proof {
        diffs.lemma_view();
        assert forall|p: (int, int)| diffs@.contains(p) == diff_positions(
            lines1@,
            lines2@,
        ).contains(p) by {
            if diff_positions(lines1@, lines2@).contains(p) {
                lemma_key_round_trip(p.0, p.1);
            }
            if diffs@.contains(p) {
                lemma_key_round_trip(p.0, p.1);
            }
        }
        assert(diffs@ =~= diff_positions(lines1@, lines2@));
    }
    diffs
}

} // verus!
