//! The scroll position of the comparison and the rules by which input moves
//! it.
//!
//! Quantities that may be fractional (scroll offsets in rows, wheel movement
//! in lines, pointer positions in pixels) are integers that count thousandths:
//! a scroll offset of 1500 is one row and a half.

use vstd::prelude::*;

verus! {

/// Thousandths in one whole row, line or pixel.
pub const MILLI: i64 = 1000;

/// Rows that one line of wheel movement scrolls.
pub const WHEEL_ROWS_PER_LINE: i64 = 10;

/// Height of a row of text in pixels; a wheel movement given in pixels is
/// divided by it to give lines.
pub const FONT_SIZE: u32 = 11;

/// Number of rows shown at once.
pub const PAGE_SIZE: usize = 100;

/// The keys that the comparison tells apart.
#[derive(Clone, Copy, Debug, PartialEq, Eq, Structural)]
pub enum Key {
    ArrowUp,
    ArrowDown,
    Other,
}

/// How far a wheel moved, in thousandths of a line or of a pixel.
#[derive(Clone, Copy, Debug, PartialEq, Eq, Structural)]
pub enum ScrollDelta {
    Lines(i64),
    Pixels(i64),
}

/// What the window reports.
#[derive(Clone, Copy, Debug, PartialEq, Eq, Structural)]
pub enum InputEvent {
    KeyPressed(Key),
    WheelScrolled(ScrollDelta),
    /// New width and height of the window, in pixels.
    WindowResized(u32, u32),
    LeftButtonPressed,
    /// Vertical position of the pointer, in thousandths of a pixel.
    CursorMoved(i64),
    LeftButtonReleased,
    Other,
}

/// What the scene is asked to do.
#[derive(Clone, Copy, Debug, PartialEq, Eq, Structural)]
pub enum Msg {
    KeyPress(Key),
    /// Wheel movement in thousandths of a line.
    Scroll(i64),
    WindowResized(u32, u32),
    StartScrollbarDrag,
    /// Vertical position of the pointer, in thousandths of a pixel.
    DragScrollbar(i64),
    EndScrollbarDrag,
}

/// A wheel movement in thousandths of a line; a movement in pixels is divided
/// by the row height and rounded towards zero.
pub open spec fn wheel_lines(delta: ScrollDelta) -> int {
    match delta {
        ScrollDelta::Lines(y) => y as int,
        ScrollDelta::Pixels(y) => if y >= 0 {
            y as int / FONT_SIZE as int
        } else {
            -((-(y as int)) / FONT_SIZE as int)
        },
    }
}

/// The message that an event becomes. While the scrollbar is dragged only the
/// pointer's movement and the release of the button are heard; otherwise only
/// keys, the wheel, resizing and the press of the button.
pub open spec fn message_for(dragging: bool, event: InputEvent) -> Option<Msg> {
    if dragging {
        match event {
            InputEvent::CursorMoved(y) => Some(Msg::DragScrollbar(y)),
            InputEvent::LeftButtonReleased => Some(Msg::EndScrollbarDrag),
            _ => None,
        }
    } else {
        match event {
            InputEvent::KeyPressed(key) => Some(Msg::KeyPress(key)),
            InputEvent::WheelScrolled(delta) => Some(Msg::Scroll(wheel_lines(delta) as i64)),
            InputEvent::WindowResized(width, height) => Some(Msg::WindowResized(width, height)),
            InputEvent::LeftButtonPressed => Some(Msg::StartScrollbarDrag),
            _ => None,
        }
    }
}

/// Turns an event of the window into the message for the scene, if it has
/// one in the present state.
pub fn route_event(dragging: bool, event: InputEvent) -> (msg: Option<Msg>)
    ensures
        msg == message_for(dragging, event),
{
    if dragging {
        match event {
            InputEvent::CursorMoved(y) => Some(Msg::DragScrollbar(y)),
            InputEvent::LeftButtonReleased => Some(Msg::EndScrollbarDrag),
            _ => None,
        }
    } else {
        match event {
            InputEvent::KeyPressed(key) => Some(Msg::KeyPress(key)),
            InputEvent::WheelScrolled(delta) => {
                let amount: i64 = match delta {
                    ScrollDelta::Lines(y) => y,
                    ScrollDelta::Pixels(y) => {
                        let row_height: i128 = FONT_SIZE as i128;
                        assert(row_height == 11);
                        if y >= 0 {
                            ((y as i128) / row_height) as i64
                        } else {
                            (-((-(y as i128)) / row_height)) as i64
                        }
                    },
                };
                Some(Msg::Scroll(amount))
            },
            InputEvent::WindowResized(width, height) => Some(Msg::WindowResized(width, height)),
            InputEvent::LeftButtonPressed => Some(Msg::StartScrollbarDrag),
            _ => None,
        }
    }
}

/// While the scrollbar is dragged, an event gives no message but one of the
/// drag: that the pointer moved, or that the drag ended.
pub proof fn lemma_drag_has_priority(event: InputEvent)
    ensures
        match message_for(true, event) {
            Some(Msg::DragScrollbar(_)) => true,
            Some(Msg::EndScrollbarDrag) => true,
            Some(_) => false,
            None => true,
        },
{
}

/// The scroll state as numbers: offsets in thousandths of a row, the last
/// offset in rows, the window in pixels.
pub struct ViewportModel {
    pub scroll_offset: int,
    pub max_scroll_offset: int,
    pub window_width: int,
    pub window_height: int,
    pub drag_anchor: Option<int>,
}

/// The largest offset that clamping lets stand: the rows that do not fit in
/// the window, none where all fit. The window's height counts as so many
/// rows, as it stands.
pub open spec fn scroll_limit(max_scroll_offset: int, window_height: int) -> int {
    if max_scroll_offset > window_height {
        (max_scroll_offset - window_height) * MILLI
    } else {
        0
    }
}

/// `offset` held between zero and `limit`.
pub open spec fn clamp_offset(offset: int, limit: int) -> int {
    if offset < 0 {
        0
    } else if offset > limit {
        limit
    } else {
        offset
    }
}

/// The offset that a pointer at height `pointer_y` asks for: the same part of
/// all rows as `pointer_y` is of the window's height, rounded down.
pub open spec fn drag_target(pointer_y: int, window_height: int, max_scroll_offset: int) -> int
    recommends
        window_height > 0,
{
    (pointer_y * max_scroll_offset) / window_height
}

impl ViewportModel {
    /// The largest offset that clamping lets stand in this state.
    pub open spec fn limit(self) -> int {
        scroll_limit(self.max_scroll_offset, self.window_height)
    }

    /// Whether the scrollbar is dragged.
    pub open spec fn is_dragging(self) -> bool {
        self.drag_anchor is Some
    }

    /// This state with its offset replaced by `offset`, clamped.
    pub open spec fn scrolled_to(self, offset: int) -> ViewportModel {
        ViewportModel { scroll_offset: clamp_offset(offset, self.limit()), ..self }
    }

    /// This state with its offset clamped.
    pub open spec fn clamped(self) -> ViewportModel {
        self.scrolled_to(self.scroll_offset)
    }

    /// This state after the scrollbar was dragged to `pointer_y`. In a window
    /// without height a pointer at or below its top asks for the last offset,
    /// one above it for the first.
    pub open spec fn dragged_to(self, pointer_y: int) -> ViewportModel {
        if self.window_height > 0 {
            self.scrolled_to(drag_target(pointer_y, self.window_height, self.max_scroll_offset))
        } else if pointer_y < 0 {
            ViewportModel { scroll_offset: 0, ..self }
        } else {
            ViewportModel { scroll_offset: self.limit(), ..self }
        }
    }

    /// The state that follows this one on `msg`.
    pub open spec fn step(self, msg: Msg) -> ViewportModel {
        match msg {
            Msg::KeyPress(Key::ArrowDown) => self.scrolled_to(self.scroll_offset + MILLI),
            Msg::KeyPress(Key::ArrowUp) => self.scrolled_to(self.scroll_offset - MILLI),
            Msg::KeyPress(Key::Other) => self,
            Msg::Scroll(amount) => self.scrolled_to(
                self.scroll_offset - amount * WHEEL_ROWS_PER_LINE,
            ),
            Msg::WindowResized(width, height) => ViewportModel {
                window_width: width as int,
                window_height: height as int,
                ..self
            },
            Msg::StartScrollbarDrag => ViewportModel {
                drag_anchor: Some(self.scroll_offset),
                ..self
            },
            Msg::EndScrollbarDrag => ViewportModel { drag_anchor: None, ..self },
            Msg::DragScrollbar(pointer_y) => self.dragged_to(pointer_y as int),
        }
    }

    /// The state that follows this one on `event`: the step on the message
    /// that the event becomes, or this state where it becomes none.
    pub open spec fn after_event(self, event: InputEvent) -> ViewportModel {
        match message_for(self.is_dragging(), event) {
            Some(msg) => self.step(msg),
            None => self,
        }
    }

    /// First row in view: the whole rows in the offset.
    pub open spec fn first_row(self) -> int {
        self.scroll_offset / MILLI as int
    }

    /// The row behind the last in view: a page further, or the last offset
    /// where that is nearer.
    pub open spec fn end_row(self) -> int {
        if self.first_row() + PAGE_SIZE <= self.max_scroll_offset {
            self.first_row() + PAGE_SIZE
        } else {
            self.max_scroll_offset
        }
    }

    /// What holds of every state that the library hands out.
    pub open spec fn valid(self) -> bool {
        &&& 0 <= self.max_scroll_offset <= usize::MAX
        &&& 0 <= self.scroll_offset <= self.max_scroll_offset * MILLI
        &&& 0 <= self.window_width <= u32::MAX
        &&& 0 <= self.window_height <= u32::MAX
    }
}

/// Clamping a clamped offset changes nothing.
pub proof fn lemma_clamp_idempotent(offset: int, max_scroll_offset: int, window_height: int)
    ensures
        clamp_offset(
            clamp_offset(offset, scroll_limit(max_scroll_offset, window_height)),
            scroll_limit(max_scroll_offset, window_height),
        ) == clamp_offset(offset, scroll_limit(max_scroll_offset, window_height)),
{
}

/// Clamping a state twice gives the same state as clamping it once, whatever
/// the state.
pub proof fn lemma_clamped_twice(s: ViewportModel)
    ensures
        s.clamped().clamped() == s.clamped(),
{
}

/// A clamped offset is not negative and not beyond the limit, an offset
/// within those bounds is left as it is, and where all rows fit in the window
/// (so where there is no row at all) the offset is held at zero.
pub proof fn lemma_clamp_bounds(offset: int, max_scroll_offset: int, window_height: int)
    ensures
        0 <= clamp_offset(offset, scroll_limit(max_scroll_offset, window_height)) <= scroll_limit(
            max_scroll_offset,
            window_height,
        ),
        0 <= offset <= scroll_limit(max_scroll_offset, window_height) ==> clamp_offset(
            offset,
            scroll_limit(max_scroll_offset, window_height),
        ) == offset,
        max_scroll_offset <= window_height ==> clamp_offset(
            offset,
            scroll_limit(max_scroll_offset, window_height),
        ) == 0,
{
}

/// Every step leads from a valid state to a valid state, and leaves the last
/// offset as it was.
pub proof fn lemma_step_valid(s: ViewportModel, msg: Msg)
    requires
        s.valid(),
    ensures
        s.step(msg).valid(),
        s.step(msg).max_scroll_offset == s.max_scroll_offset,
{
    assert(s.limit() <= s.max_scroll_offset * MILLI);
}

/// A step that moves the offset leaves it within the clamp's bounds.
pub proof fn lemma_step_clamps(s: ViewportModel, msg: Msg)
    requires
        s.valid(),
    ensures
        s.step(msg).scroll_offset != s.scroll_offset ==> 0 <= s.step(msg).scroll_offset
            <= s.step(msg).limit(),
{
}

/// While the scrollbar is dragged, keys, the wheel, resizing and a further
/// press of the button change nothing.
pub proof fn lemma_drag_shuts_out_navigation(s: ViewportModel, event: InputEvent)
    requires
        s.is_dragging(),
        !(event is CursorMoved),
        !(event is LeftButtonReleased),
    ensures
        s.after_event(event) == s,
{
}

/// A press of the button, a move of the pointer and the release of the
/// button leave the offset where the pointer asked for it, and no drag.
pub proof fn lemma_drag_gesture(s: ViewportModel, pointer_y: i64)
    requires
        !s.is_dragging(),
    ensures
        s.after_event(InputEvent::LeftButtonPressed).after_event(
            InputEvent::CursorMoved(pointer_y),
        ).after_event(InputEvent::LeftButtonReleased) == (ViewportModel {
            scroll_offset: s.dragged_to(pointer_y as int).scroll_offset,
            drag_anchor: None,
            ..s
        }),
{
}

/// Dragging to the top of the window gives offset zero; dragging to its
/// bottom gives the last offset, clamped.
pub proof fn lemma_drag_ends(s: ViewportModel)
    requires
        s.valid(),
        s.window_height > 0,
    ensures
        s.dragged_to(0).scroll_offset == 0,
        drag_target(s.window_height * MILLI, s.window_height, s.max_scroll_offset)
            == s.max_scroll_offset * MILLI,
        s.dragged_to(s.window_height * MILLI).scroll_offset == s.limit(),
{
    let h = s.window_height;
    let m = s.max_scroll_offset;
    assert((0 * m) / h == 0) by (nonlinear_arith)
        requires
            h > 0,
    ;
    assert(((h * 1000) * m) / h == m * 1000) by (nonlinear_arith)
        requires
            h > 0,
    ;
}

/// The state after the down arrow was pressed `presses` times.
pub open spec fn after_arrow_down(s: ViewportModel, presses: nat) -> ViewportModel
    decreases presses,
{
    if presses == 0 {
        s
    } else {
        after_arrow_down(s, (presses - 1) as nat).step(Msg::KeyPress(Key::ArrowDown))
    }
}

/// The down arrow pressed any number of times moves the offset down by that
/// many rows, but not beyond the limit: the presses together do what one move
/// by as many rows does.
pub proof fn lemma_arrow_down_repeated(s: ViewportModel, presses: nat)
    requires
        s.valid(),
        presses > 0,
    ensures
        after_arrow_down(s, presses) == s.scrolled_to(s.scroll_offset + presses * MILLI),
        after_arrow_down(s, presses).scroll_offset == if s.scroll_offset + presses * MILLI
            <= s.limit() {
            s.scroll_offset + presses * MILLI
        } else {
            s.limit()
        },
    decreases presses,
{
    if presses > 1 {
        lemma_arrow_down_repeated(s, (presses - 1) as nat);
    } else {
        assert(after_arrow_down(s, 0) == s);
    }
}

/// Scroll offset, window size and drag state of one comparison. The offset
/// is never negative and never beyond the last offset; it is kept in 128 bits,
/// so that no number of rows is too large to be counted in thousandths.
#[derive(Clone, Copy, Debug)]
pub struct ViewportState {
    scroll_offset: i128,
    max_scroll_offset: usize,
    window_width: u32,
    window_height: u32,
    scroll_drag_start: Option<i128>,
}

impl View for ViewportState {
    type V = ViewportModel;

    closed spec fn view(&self) -> ViewportModel {
        ViewportModel {
            scroll_offset: self.scroll_offset as int,
            max_scroll_offset: self.max_scroll_offset as int,
            window_width: self.window_width as int,
            window_height: self.window_height as int,
            drag_anchor: match self.scroll_drag_start {
                Some(v) => Some(v as int),
                None => None,
            },
        }
    }
}

impl ViewportState {
    #[verifier::type_invariant]
    spec fn offset_in_range(self) -> bool {
        0 <= self.scroll_offset <= self.max_scroll_offset * MILLI
    }

    /// The state at the start: offset zero, not dragging. `max_scroll_offset`
    /// is in rows, the window's size in pixels.
    pub fn new(max_scroll_offset: usize, window_width: u32, window_height: u32) -> (state: Self)
        ensures
            state@ == (ViewportModel {
                scroll_offset: 0,
                max_scroll_offset: max_scroll_offset as int,
                window_width: window_width as int,
                window_height: window_height as int,
                drag_anchor: None,
            }),
            state@.valid(),
    {
        ViewportState {
            scroll_offset: 0,
            max_scroll_offset,
            window_width,
            window_height,
            scroll_drag_start: None,
        }
    }

    /// The offset of the first row in view, in thousandths of a row. It is
    /// never negative and never beyond the last offset.
    pub fn scroll_offset(&self) -> (offset: i128)
        ensures
            offset == self@.scroll_offset,
            self@.valid(),
    {
        proof {
            use_type_invariant(self);
        }
        self.scroll_offset
    }

    /// The last offset, in rows.
    pub fn max_scroll_offset(&self) -> (rows: usize)
        ensures
            rows == self@.max_scroll_offset,
    {
        self.max_scroll_offset
    }

    /// Width of the window in pixels.
    pub fn window_width(&self) -> (width: u32)
        ensures
            width == self@.window_width,
    {
        self.window_width
    }

    /// Height of the window in pixels.
    pub fn window_height(&self) -> (height: u32)
        ensures
            height == self@.window_height,
    {
        self.window_height
    }

    /// The offset at which the present drag began, `None` when the scrollbar
    /// is not dragged.
    pub fn scroll_drag_start(&self) -> (anchor: Option<i128>)
        ensures
            match anchor {
                Some(v) => self@.drag_anchor == Some(v as int),
                None => self@.drag_anchor is None,
            },
    {
        self.scroll_drag_start
    }

    /// Whether the scrollbar is dragged.
    pub fn is_dragging(&self) -> (dragging: bool)
        ensures
            dragging == self@.drag_anchor is Some,
    {
        self.scroll_drag_start.is_some()
    }

    /// The largest offset that clamping lets stand, in thousandths of a row.
    pub fn limit(&self) -> (limit: i128)
        ensures
            limit == self@.limit(),
            0 <= limit <= self@.max_scroll_offset * MILLI,
    {
        let rows: i128 = self.max_scroll_offset as i128;
        let height: i128 = self.window_height as i128;
        let milli: i128 = MILLI as i128;
        assert(milli == 1000);
        if rows > height {
            (rows - height) * milli
        } else {
            0
        }
    }

    /// Puts the offset at `target`, clamped.
    fn scroll_to(&mut self, target: i128)
        ensures
            final(self)@ == old(self)@.scrolled_to(target as int),
    {
        let limit = self.limit();
        self.scroll_offset = if target < 0 {
            0
        } else if target > limit {
            limit
        } else {
            target
        };
    }

    /// Brings the offset back between zero and the limit.
    pub fn clamp_viewport(&mut self)
        ensures
            final(self)@ == old(self)@.clamped(),
    {
        let offset = self.scroll_offset;
        self.scroll_to(offset);
    }

    /// Puts the offset where a pointer at height `pointer_y` asks for it.
    fn drag_to(&mut self, pointer_y: i64)
        ensures
            final(self)@ == old(self)@.dragged_to(pointer_y as int),
    {
        proof {
            use_type_invariant(&*self);
        }
        if self.window_height == 0 {
            if pointer_y < 0 {
                self.scroll_offset = 0;
            } else {
                self.scroll_offset = self.limit();
            }
        } else if pointer_y <= 0 {
            proof {
                let y = pointer_y as int;
                let m = self.max_scroll_offset as int;
                let h = self.window_height as int;
                assert((y * m) / h <= 0) by (nonlinear_arith)
                    requires
                        y <= 0,
                        m >= 0,
                        h > 0,
                ;
            }
            self.scroll_offset = 0;
        } else {
            let y: u128 = pointer_y as u128;
            let rows: u128 = self.max_scroll_offset as u128;
            let height: u128 = self.window_height as u128;
            assert(y * rows <= i64::MAX * u64::MAX) by (nonlinear_arith)
                requires
                    0 <= y <= i64::MAX,
                    0 <= rows <= u64::MAX,
            ;
            let product: u128 = y * rows;
            let target: u128 = product / height;
            assert(target <= product) by (nonlinear_arith)
                requires
                    target == product / height,
                    height >= 1,
                    product >= 0,
            ;
            self.scroll_to(target as i128);
        }
    }

    /// Takes one message: the offset moves and is clamped, the window's size
    /// is taken over, or a drag begins or ends.
    pub fn update(&mut self, msg: Msg)
        ensures
            final(self)@ == old(self)@.step(msg),
    {
        proof {
            use_type_invariant(&*self);
        }
        match msg {
            Msg::KeyPress(Key::ArrowDown) => {
                let target = self.scroll_offset + (MILLI as i128);
                self.scroll_to(target);
            },
            Msg::KeyPress(Key::ArrowUp) => {
                let target = self.scroll_offset - (MILLI as i128);
                self.scroll_to(target);
            },
            Msg::KeyPress(Key::Other) => {},
            Msg::Scroll(amount) => {
                let rows_per_line: i128 = WHEEL_ROWS_PER_LINE as i128;
                assert(rows_per_line == 10);
                let target = self.scroll_offset - (amount as i128) * rows_per_line;
                self.scroll_to(target);
            },
            Msg::WindowResized(width, height) => {
                self.window_width = width;
                self.window_height = height;
            },
            Msg::StartScrollbarDrag => {
                self.scroll_drag_start = Some(self.scroll_offset);
            },
            Msg::EndScrollbarDrag => {
                self.scroll_drag_start = None;
            },
            Msg::DragScrollbar(pointer_y) => {
                self.drag_to(pointer_y);
            },
        }
    }

    /// Takes one event of the window: where the present state hears it, the
    /// message that it becomes is applied and handed back.
    pub fn handle_event(&mut self, event: InputEvent) -> (msg: Option<Msg>)
        ensures
            msg == message_for(old(self)@.is_dragging(), event),
            final(self)@ == old(self)@.after_event(event),
    {
        let msg = route_event(self.is_dragging(), event);
        if let Some(m) = msg {
            self.update(m);
        }
        msg
    }

    /// The rows in view: the first, and the one behind the last.
    pub fn visible_rows(&self) -> (rows: (usize, usize))
        ensures
            rows.0 == self@.first_row(),
            rows.1 == self@.end_row(),
            rows.0 <= rows.1 <= self@.max_scroll_offset,
            rows.1 - rows.0 <= PAGE_SIZE,
    {
        proof {
            use_type_invariant(self);
        }
        let milli: i128 = MILLI as i128;
        assert(milli == 1000);
        let first: usize = (self.scroll_offset / milli) as usize;
        let end: usize = if self.max_scroll_offset - first >= PAGE_SIZE {
            first + PAGE_SIZE
        } else {
            self.max_scroll_offset
        };
        (first, end)
    }
}

} // verus!
