//! One comparison: the grids of two files, the cells in which they differ,
//! and the scroll state, with the description of what is to be drawn.

use crate::diff::{diff_positions, DiffSet};
use crate::grid::{cell_text, grid_cell, HexRow};
use crate::hex::{
    column_header, column_header_text, decimal_text, right_aligned, right_aligned_decimal,
};
use crate::scrollbar::{scrollbar_for, scrollbar_of, thumb_height, thumb_offset, Scrollbar};
use crate::style::ColorClass;
use crate::viewport::{
    message_for, route_event, InputEvent, Msg, ViewportModel, ViewportState,
};
use std::ops::Range;
use vstd::prelude::*;

pub use crate::diff::get_diffs;
pub use crate::grid::{load_data_file_hex, COL_COUNT};
pub use crate::viewport::FONT_SIZE;

verus! {

/// Width of the field in which a row's byte offset is written.
pub const LABEL_WIDTH: usize = 8;

/// A cell as it is to be drawn: its text, empty where the cell is absent, and
/// how it is colored.
#[derive(Debug, PartialEq, Eq)]
pub struct RenderedCell {
    pub text: String,
    pub color: ColorClass,
}

impl View for RenderedCell {
    type V = (Seq<char>, ColorClass);

    open spec fn view(&self) -> (Seq<char>, ColorClass) {
        (self.text@, self.color)
    }
}

/// The text that is drawn for what a cell holds.
pub open spec fn shown_text(cell: Option<Seq<char>>) -> Seq<char> {
    match cell {
        Some(text) => text,
        None => Seq::empty(),
    }
}

/// The class of a cell that is, or is not, among the differing ones.
pub open spec fn class_of(differs: bool) -> ColorClass {
    if differs {
        ColorClass::Highlighted
    } else {
        ColorClass::Normal
    }
}

/// How the cell in row `row`, column `col` of `grid` is drawn when the cells
/// in `diffs` differ.
pub open spec fn rendered_cell(grid: Seq<HexRow>, diffs: Set<(int, int)>, row: int, col: int) -> (
    Seq<char>,
    ColorClass,
) {
    (shown_text(grid_cell(grid, row, col)), class_of(diffs.contains((row, col))))
}

/// `line` is row `row` of `grid` as it is drawn.
pub open spec fn renders_row(
    line: Seq<RenderedCell>,
    grid: Seq<HexRow>,
    diffs: Set<(int, int)>,
    row: int,
) -> bool {
    &&& line.len() == COL_COUNT
    &&& forall|j: int|
        0 <= j < COL_COUNT ==> (#[trigger] line[j])@ == rendered_cell(grid, diffs, row, j)
}

/// `lines` are the rows from `start` up to `end` of `grid` as they are drawn.
pub open spec fn renders(
    lines: Seq<Vec<RenderedCell>>,
    grid: Seq<HexRow>,
    diffs: Set<(int, int)>,
    start: int,
    end: int,
) -> bool {
    &&& lines.len() == end - start
    &&& forall|k: int|
        0 <= k < lines.len() ==> renders_row((#[trigger] lines[k])@, grid, diffs, start + k)
}

/// The label of a row: the offset of its first byte, in decimal, right-aligned.
pub open spec fn offset_label_text(row: int) -> Seq<char> {
    right_aligned(decimal_text((row * COL_COUNT) as nat), LABEL_WIDTH as nat)
}

/// `labels` are the labels of the rows from `start` up to `end`, none where
/// `end` is not behind `start`.
pub open spec fn labels_rows(labels: Seq<String>, start: int, end: int) -> bool {
    &&& labels.len() == if start <= end {
        end - start
    } else {
        0
    }
    &&& forall|k: int|
        0 <= k < labels.len() ==> (#[trigger] labels[k])@ == offset_label_text(start + k)
}

/// `headers` are the headings of all columns.
pub open spec fn heads_columns(headers: Seq<String>) -> bool {
    &&& headers.len() == COL_COUNT
    &&& forall|j: int|
        0 <= j < COL_COUNT ==> (#[trigger] headers[j])@ == column_header_text(j as nat)
}

/// Draws one row of a grid.
fn render_line(line: &HexRow, diffs: &DiffSet, row: usize) -> (out: Vec<RenderedCell>)
    ensures
        out@.len() == COL_COUNT,
        forall|j: int|
            0 <= j < COL_COUNT ==> (#[trigger] out@[j])@ == (
                shown_text(cell_text(line@[j])),
                class_of(diffs@.contains((row as int, j))),
            ),
{
    let mut out: Vec<RenderedCell> = Vec::with_capacity(COL_COUNT);
    let mut j: usize = 0;
    while j < COL_COUNT
        invariant
            j <= COL_COUNT,
            out@.len() == j,
            forall|c: int|
                0 <= c < j ==> (#[trigger] out@[c])@ == (
                    shown_text(cell_text(line@[c])),
                    class_of(diffs@.contains((row as int, c))),
                ),
        decreases COL_COUNT - j,
    {
        let text = match &line[j] {
            Some(s) => s.clone(),
            None => String::new(),
        };
        let color = if diffs.contains(row, j) {
            ColorClass::Highlighted
        } else {
            ColorClass::Normal
        };
        out.push(RenderedCell { text, color });
        j += 1;
    }
    out
}

/// Draws the rows of `lines` that `range` names: for every cell its text and
/// whether `diffs` holds its place.
pub fn render_lines(lines: &Vec<HexRow>, diffs: &DiffSet, range: Range<usize>) -> (out: Vec<
    Vec<RenderedCell>,
>)
    requires
        range.start <= range.end <= lines@.len(),
    ensures
        renders(out@, lines@, diffs@, range.start as int, range.end as int),
{
    let mut out: Vec<Vec<RenderedCell>> = Vec::with_capacity(range.end - range.start);
    let mut i: usize = range.start;
    while i < range.end
        invariant
            range.start <= i <= range.end <= lines@.len(),
            out@.len() == i - range.start,
            forall|k: int|
                0 <= k < out@.len() ==> renders_row(
                    (#[trigger] out@[k])@,
                    lines@,
                    diffs@,
                    range.start + k,
                ),
        decreases range.end - i,
    {
        let line = render_line(&lines[i], diffs, i);
        out.push(line);
        i += 1;
    }
    out
}

/// Writes the labels of the rows that `range` names.
pub fn offset_labels(range: Range<usize>) -> (labels: Vec<String>)
    ensures
        labels_rows(labels@, range.start as int, range.end as int),
{
    let mut labels: Vec<String> = Vec::new();
    if range.start >= range.end {
        return labels;
    }
    let mut i: usize = range.start;
    while i < range.end
        invariant
            range.start <= i <= range.end,
            labels@.len() == i - range.start,
            forall|k: int|
                0 <= k < labels@.len() ==> (#[trigger] labels@[k])@ == offset_label_text(
                    range.start + k,
                ),
        decreases range.end - i,
    {
        let cols: u128 = COL_COUNT as u128;
        assert(cols == 16);
        let offset: u128 = (i as u128) * cols;
        labels.push(right_aligned_decimal(offset, LABEL_WIDTH));
        i += 1;
    }
    labels
}

/// Writes the headings of all columns.
pub fn column_headers() -> (headers: Vec<String>)
    ensures
        heads_columns(headers@),
{
    let mut headers: Vec<String> = Vec::with_capacity(COL_COUNT);
    let mut j: usize = 0;
    while j < COL_COUNT
        invariant
            j <= COL_COUNT,
            headers@.len() == j,
            forall|c: int| 0 <= c < j ==> (#[trigger] headers@[c])@ == column_header_text(c as nat),
        decreases COL_COUNT - j,
    {
        headers.push(column_header(j));
        j += 1;
    }
    headers
}

/// A comparison as numbers and grids.
pub struct SceneModel {
    pub hexdata1: Seq<HexRow>,
    pub hexdata2: Seq<HexRow>,
    pub viewport: ViewportModel,
}

impl SceneModel {
    /// The cells in which the two grids differ.
    pub open spec fn diffs(self) -> Set<(int, int)> {
        diff_positions(self.hexdata1, self.hexdata2)
    }

    /// Number of rows that both grids have.
    pub open spec fn shared_rows(self) -> int {
        if self.hexdata1.len() <= self.hexdata2.len() {
            self.hexdata1.len() as int
        } else {
            self.hexdata2.len() as int
        }
    }

    /// What holds of every comparison: the scroll state is valid, and its
    /// last offset is the number of rows that both grids have.
    pub open spec fn valid(self) -> bool {
        &&& self.viewport.valid()
        &&& self.viewport.max_scroll_offset == self.shared_rows()
    }
}

/// All that is drawn of a comparison.
#[derive(Debug)]
pub struct SceneView {
    /// The rows in view.
    pub rows: Range<usize>,
    /// For each row in view, the offset of its first byte.
    pub offset_labels: Vec<String>,
    /// The heading of each column.
    pub column_headers: Vec<String>,
    /// The rows in view of the first file.
    pub lines1: Vec<Vec<RenderedCell>>,
    /// The rows in view of the second file.
    pub lines2: Vec<Vec<RenderedCell>>,
    pub scrollbar: Scrollbar,
}

/// `view` is what is drawn of `scene`.
pub open spec fn shows(view: SceneView, scene: SceneModel) -> bool {
    &&& view.rows.start == scene.viewport.first_row()
    &&& view.rows.end == scene.viewport.end_row()
    &&& labels_rows(view.offset_labels@, view.rows.start as int, view.rows.end as int)
    &&& heads_columns(view.column_headers@)
    &&& renders(
        view.lines1@,
        scene.hexdata1,
        scene.diffs(),
        view.rows.start as int,
        view.rows.end as int,
    )
    &&& renders(
        view.lines2@,
        scene.hexdata2,
        scene.diffs(),
        view.rows.start as int,
        view.rows.end as int,
    )
    &&& view.scrollbar == scrollbar_of(scene.viewport)
}

/// Two hex grids side by side, the set of cells in which they differ, worked
/// out once, and the scroll state.
#[derive(Debug)]
pub struct MainScene {
    hexdata1: Vec<HexRow>,
    hexdata2: Vec<HexRow>,
    viewport: ViewportState,
    diffs: DiffSet,
}

impl View for MainScene {
    type V = SceneModel;

    closed spec fn view(&self) -> SceneModel {
        SceneModel {
            hexdata1: self.hexdata1@,
            hexdata2: self.hexdata2@,
            viewport: self.viewport@,
        }
    }
}

impl MainScene {
    #[verifier::type_invariant]
    spec fn consistent(self) -> bool {
        &&& self.diffs@ == diff_positions(self.hexdata1@, self.hexdata2@)
        &&& self@.valid()
    }

    /// Begins a comparison of two grids in a window of the given size in
    /// pixels: the differing cells are worked out, the view is at the top,
    /// and the last offset is the number of rows that both grids have.
    pub fn new(
        hexdata1: Vec<HexRow>,
        hexdata2: Vec<HexRow>,
        window_width: u32,
        window_height: u32,
    ) -> (scene: MainScene)
        ensures
            scene@.hexdata1 == hexdata1@,
            scene@.hexdata2 == hexdata2@,
            scene@.viewport == (ViewportModel {
                scroll_offset: 0,
                max_scroll_offset: scene@.shared_rows(),
                window_width: window_width as int,
                window_height: window_height as int,
                drag_anchor: None,
            }),
            scene@.valid(),
    {
        let diffs = get_diffs(hexdata1.as_slice(), hexdata2.as_slice());
        let rows: usize = if hexdata1.len() <= hexdata2.len() {
            hexdata1.len()
        } else {
            hexdata2.len()
        };
        let viewport = ViewportState::new(rows, window_width, window_height);
        MainScene { hexdata1, hexdata2, viewport, diffs }
    }

    /// The grid of the first file.
    pub fn hexdata1(&self) -> (grid: &Vec<HexRow>)
        ensures
            grid@ == self@.hexdata1,
    {
        &self.hexdata1
    }

    /// The grid of the second file.
    pub fn hexdata2(&self) -> (grid: &Vec<HexRow>)
        ensures
            grid@ == self@.hexdata2,
    {
        &self.hexdata2
    }

    /// The cells in which the two grids differ.
    pub fn diffs(&self) -> (diffs: &DiffSet)
        ensures
            diffs@ == self@.diffs(),
    {
        proof {
            use_type_invariant(self);
        }
        &self.diffs
    }

    /// The scroll state.
    pub fn viewport(&self) -> (viewport: ViewportState)
        ensures
            viewport@ == self@.viewport,
            self@.valid(),
    {
        proof {
            use_type_invariant(self);
        }
        self.viewport
    }

    /// Takes one message: see [`ViewportModel::step`]. The grids stay.
    pub fn update_scene(&mut self, message: Msg)
        ensures
            final(self)@ == (SceneModel {
                viewport: old(self)@.viewport.step(message),
                ..old(self)@
            }),
            final(self)@.valid(),
    {
        proof {
            use_type_invariant(&*self);
            crate::viewport::lemma_step_valid(self@.viewport, message);
        }
        let mut viewport = self.viewport;
        viewport.update(message);
        self.viewport = viewport;
    }

    /// Takes one event of the window: where the present state hears it, the
    /// message that it becomes is applied and handed back.
    pub fn handle_event(&mut self, event: InputEvent) -> (msg: Option<Msg>)
        ensures
            msg == message_for(old(self)@.viewport.is_dragging(), event),
            final(self)@ == (SceneModel {
                viewport: old(self)@.viewport.after_event(event),
                ..old(self)@
            }),
            final(self)@.valid(),
    {
        let msg = route_event(self.viewport.is_dragging(), event);
        if let Some(m) = msg {
            self.update_scene(m);
        } else {
            proof {
                use_type_invariant(&*self);
            }
        }
        msg
    }

    /// Brings the offset back between zero and the limit.
    pub fn clamp_viewport(&mut self)
        ensures
            final(self)@ == (SceneModel { viewport: old(self)@.viewport.clamped(), ..old(self)@ }),
            final(self)@.valid(),
    {
        proof {
            use_type_invariant(&*self);
        }
        let mut viewport = self.viewport;
        viewport.clamp_viewport();
        self.viewport = viewport;
    }

    /// The rows in view.
    pub fn visible_window(&self) -> (rows: Range<usize>)
        ensures
            rows.start == self@.viewport.first_row(),
            rows.end == self@.viewport.end_row(),
            rows.start <= rows.end,
            rows.end <= self@.hexdata1.len(),
            rows.end <= self@.hexdata2.len(),
    {
        proof {
            use_type_invariant(self);
        }
        let (start, end) = self.viewport.visible_rows();
        start..end
    }

    /// How the cell in row `row`, column `col` is colored: highlighted where
    /// the two grids differ in it.
    pub fn cell_color(&self, row: usize, col: usize) -> (color: ColorClass)
        ensures
            color == class_of(self@.diffs().contains((row as int, col as int))),
    {
        proof {
            use_type_invariant(self);
        }
        if self.diffs.contains(row, col) {
            ColorClass::Highlighted
        } else {
            ColorClass::Normal
        }
    }

    /// The scrollbar for the present scroll state.
    pub fn render_scrollbar(&self) -> (bar: Scrollbar)
        ensures
            bar == scrollbar_of(self@.viewport),
            bar.thumb is Some <==> self@.viewport.max_scroll_offset > 0,
            match bar.thumb {
                Some(thumb) => thumb.height == thumb_height(self@.viewport) && thumb.offset
                    == thumb_offset(self@.viewport),
                None => true,
            },
    {
        scrollbar_for(&self.viewport)
    }

    /// Describes all that is drawn: the rows in view of both grids with
    /// their labels, the column headings and the scrollbar.
    pub fn view_scene(&self) -> (view: SceneView)
        ensures
            shows(view, self@),
    {
        proof {
            use_type_invariant(self);
        }
        let range = self.visible_window();
        let labels = offset_labels(range.start..range.end);
        let headers = column_headers();
        let lines1 = render_lines(&self.hexdata1, &self.diffs, range.start..range.end);
        let lines2 = render_lines(&self.hexdata2, &self.diffs, range.start..range.end);
        let scrollbar = self.render_scrollbar();
        SceneView {
            rows: range,
            offset_labels: labels,
            column_headers: headers,
            lines1,
            lines2,
            scrollbar,
        }
    }
}

} // verus!
