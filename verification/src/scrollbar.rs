//! The scrollbar at the right edge: where its thumb stands for a scroll
//! state, and how track and thumb are painted.

use crate::style::{transparent, Border, ButtonAppearance, ContainerAppearance, Rgba};
use crate::viewport::{ViewportModel, ViewportState, FONT_SIZE, MILLI};
use vstd::arithmetic::div_mod::lemma_fundamental_div_mod_converse;
use vstd::prelude::*;

verus! {

/// Width of the scrollbar's track in pixels.
pub const TRACK_WIDTH: u32 = 20;

/// The least height of the thumb in pixels.
pub const MIN_THUMB_HEIGHT: u32 = 20;

/// Height of the thumb in thousandths of a pixel: one row's height for every
/// row's share of the window, but not less than the least height.
pub open spec fn thumb_height(m: ViewportModel) -> int
    recommends
        m.max_scroll_offset > 0,
{
    let share = (m.window_height * FONT_SIZE * MILLI) / m.max_scroll_offset;
    if share < MIN_THUMB_HEIGHT * MILLI {
        MIN_THUMB_HEIGHT * MILLI
    } else {
        share
    }
}

/// Distance of the thumb from the top of the track in thousandths of a pixel:
/// the part of the room that the thumb leaves in the window which the offset
/// is of the last offset, rounded down.
pub open spec fn thumb_offset(m: ViewportModel) -> int
    recommends
        m.max_scroll_offset > 0,
{
    (m.scroll_offset * (m.window_height * MILLI - thumb_height(m))) / (m.max_scroll_offset * MILLI)
}

/// Height and place of the thumb, in thousandths of a pixel.
#[derive(Clone, Copy, Debug, PartialEq, Eq, Structural)]
pub struct Thumb {
    pub height: i64,
    pub offset: i64,
}

/// The scrollbar as it is to be drawn: the track's size in pixels and the
/// thumb on it. There is no thumb where there is no row to scroll over.
#[derive(Clone, Copy, Debug, PartialEq, Eq, Structural)]
pub struct Scrollbar {
    pub track_width: u32,
    pub track_height: u32,
    pub thumb: Option<Thumb>,
}

/// The scrollbar that stands for the state `m`.
pub open spec fn scrollbar_of(m: ViewportModel) -> Scrollbar {
    Scrollbar {
        track_width: TRACK_WIDTH,
        track_height: m.window_height as u32,
        thumb: if m.max_scroll_offset > 0 {
            Some(Thumb { height: thumb_height(m) as i64, offset: thumb_offset(m) as i64 })
        } else {
            None
        },
    }
}

/// The thumb is at least as high as the least height, and while the offset is
/// within the rows it stands between the top of the track and the place at
/// which its lower edge meets the window's lower edge (above the top where
/// the thumb is higher than the window).
pub proof fn lemma_thumb_bounds(m: ViewportModel)
    requires
        m.valid(),
        m.max_scroll_offset > 0,
    ensures
        MIN_THUMB_HEIGHT * MILLI <= thumb_height(m) <= i64::MAX,
        m.window_height * MILLI >= thumb_height(m) ==> 0 <= thumb_offset(m) <= m.window_height
            * MILLI - thumb_height(m),
        m.window_height * MILLI < thumb_height(m) ==> m.window_height * MILLI - thumb_height(m)
            <= thumb_offset(m) <= 0,
        m.scroll_offset == 0 ==> thumb_offset(m) == 0,
        m.scroll_offset == m.max_scroll_offset * MILLI ==> thumb_offset(m) == m.window_height
            * MILLI - thumb_height(m),
{
    let rows = m.max_scroll_offset;
    let whole = m.window_height * FONT_SIZE * MILLI;
    let share = whole / rows;
    assert(0 <= share <= whole) by (nonlinear_arith)
        requires
            share == whole / rows,
            whole >= 0,
            rows >= 1,
    ;
    let room = m.window_height * MILLI - thumb_height(m);
    let den = rows * MILLI;
    let off = m.scroll_offset;
    lemma_share_bounds(off, room, den);
}

/// Taking the part `off / den` of `room`, rounded down, gives a value between
/// zero and `room`, and the ends for `off` at its ends.
proof fn lemma_share_bounds(off: int, room: int, den: int)
    requires
        0 <= off <= den,
        den > 0,
    ensures
        room >= 0 ==> 0 <= (off * room) / den <= room,
        room < 0 ==> room <= (off * room) / den <= 0,
        off == 0 ==> (off * room) / den == 0,
        off == den ==> (off * room) / den == room,
{
    let q = (off * room) / den;
    assert(room >= 0 ==> 0 <= q <= room) by (nonlinear_arith)
        requires
            q == (off * room) / den,
            0 <= off <= den,
            den > 0,
    ;
    assert(room < 0 ==> room <= q <= 0) by (nonlinear_arith)
        requires
            q == (off * room) / den,
            0 <= off <= den,
            den > 0,
    ;
    assert(off == 0 ==> q == 0) by (nonlinear_arith)
        requires
            q == (off * room) / den,
            den > 0,
    ;
    assert(off == den ==> q == room) by (nonlinear_arith)
        requires
            q == (off * room) / den,
            den > 0,
    ;
}

/// Division that rounds down, also below zero.
fn floor_div(num: i128, den: i128) -> (q: i128)
    requires
        den > 0,
        num > i128::MIN,
    ensures
        q == num as int / den as int,
{
    if num >= 0 {
        num / den
    } else {
        let up: i128 = -num;
        let whole: i128 = up / den;
        let rest: i128 = up % den;
        proof {
            assert(up == den * whole + rest && 0 <= rest < den) by (nonlinear_arith)
                requires
                    whole == up as int / den as int,
                    rest == up as int % den as int,
                    den > 0,
                    up >= 0,
            ;
            assert(0 <= whole <= up) by (nonlinear_arith)
                requires
                    whole == up as int / den as int,
                    den > 0,
                    up >= 0,
            ;
            if rest == 0 {
                assert(num == (-whole) * den + 0) by (nonlinear_arith)
                    requires
                        up == den * whole + rest,
                        rest == 0,
                        up == -num,
                ;
                lemma_fundamental_div_mod_converse(num as int, den as int, -whole, 0);
            } else {
                assert(num == (-whole - 1) * den + (den - rest)) by (nonlinear_arith)
                    requires
                        up == den * whole + rest,
                        up == -num,
                ;
                lemma_fundamental_div_mod_converse(
                    num as int,
                    den as int,
                    -whole - 1,
                    den - rest,
                );
            }
        }
        if rest == 0 {
            -whole
        } else {
            -whole - 1
        }
    }
}

/// Works out the scrollbar for a scroll state.
pub fn scrollbar_for(viewport: &ViewportState) -> (bar: Scrollbar)
    ensures
        bar == scrollbar_of(viewport@),
        bar.thumb is Some <==> viewport@.max_scroll_offset > 0,
        match bar.thumb {
            Some(thumb) => thumb.height == thumb_height(viewport@) && thumb.offset == thumb_offset(
                viewport@,
            ),
            None => true,
        },
{
    let rows: i128 = viewport.max_scroll_offset() as i128;
    let height: i128 = viewport.window_height() as i128;
    let offset: i128 = viewport.scroll_offset();
    if rows == 0 {
        return Scrollbar {
            track_width: TRACK_WIDTH,
            track_height: viewport.window_height(),
            thumb: None,
        };
    }
    proof {
        lemma_thumb_bounds(viewport@);
    }
    let milli: i128 = MILLI as i128;
    let row_height: i128 = FONT_SIZE as i128;
    assert(milli == 1000 && row_height == 11);
    let least: i128 = (MIN_THUMB_HEIGHT as i128) * milli;
    let share: i128 = (height * row_height * milli) / rows;
    let thumb_h: i128 = if share < least {
        least
    } else {
        share
    };
    assert(thumb_h == thumb_height(viewport@));
    let room: i128 = height * milli - thumb_h;
    let den: i128 = rows * milli;
    // the room is within 2^48 either way and the offset within 2^74
    assert(-0x1_0000_0000_0000 <= room <= 0x1_0000_0000_0000);
    assert(-0x1000_0000_0000_0000_0000_0000_0000_0000 <= offset * room
        <= 0x1000_0000_0000_0000_0000_0000_0000_0000) by (nonlinear_arith)
        requires
            0 <= offset <= 0x400_0000_0000_0000_0000,
            -0x1_0000_0000_0000 <= room <= 0x1_0000_0000_0000,
    ;
    let thumb_o: i128 = floor_div(offset * room, den);
    assert(thumb_o == thumb_offset(viewport@));
    Scrollbar {
        track_width: TRACK_WIDTH,
        track_height: viewport.window_height(),
        thumb: Some(Thumb { height: thumb_h as i64, offset: thumb_o as i64 }),
    }
}

/// The looks of the scrollbar's track in each state of the button that it is.
#[derive(Clone, Copy, Debug)]
pub struct ScrollbarTrackButton;

/// A borderless shape with rounded corners and the given background.
pub open spec fn rounded(background: Rgba) -> ButtonAppearance {
    ButtonAppearance {
        background: Some(background),
        border: Border { color: transparent(), width: 0, radius: 4 },
        text_color: transparent(),
    }
}

impl ScrollbarTrackButton {
    /// The track at rest: dark grey, mostly transparent, no border, no label.
    pub fn active(&self) -> (look: ButtonAppearance)
        ensures
            look == rounded(Rgba { r: 20, g: 20, b: 20, a: 30 }),
    {
        ButtonAppearance {
            background: Some(Rgba { r: 20, g: 20, b: 20, a: 30 }),
            border: Border { color: Rgba { r: 0, g: 0, b: 0, a: 0 }, width: 0, radius: 4 },
            text_color: Rgba { r: 0, g: 0, b: 0, a: 0 },
        }
    }

    /// The track under the pointer: as at rest, with a lighter background.
    pub fn hovered(&self) -> (look: ButtonAppearance)
        ensures
            look == rounded(Rgba { r: 30, g: 30, b: 30, a: 40 }),
    {
        let mut appearance = self.active();
        appearance.background = Some(Rgba { r: 30, g: 30, b: 30, a: 40 });
        appearance
    }

    /// The track while pressed: as under the pointer, lighter still.
    pub fn pressed(&self) -> (look: ButtonAppearance)
        ensures
            look == rounded(Rgba { r: 40, g: 40, b: 40, a: 60 }),
    {
        let mut appearance = self.hovered();
        appearance.background = Some(Rgba { r: 40, g: 40, b: 40, a: 60 });
        appearance
    }

    /// The track when it cannot be used: as at rest, fainter.
    pub fn disabled(&self) -> (look: ButtonAppearance)
        ensures
            look == rounded(Rgba { r: 20, g: 20, b: 20, a: 10 }),
    {
        let mut appearance = self.active();
        appearance.background = Some(Rgba { r: 20, g: 20, b: 20, a: 10 });
        appearance
    }
}

/// The looks of the thumb: grey, slightly transparent, rounded, no border.
pub fn scrollbar_thumb_style() -> (look: ContainerAppearance)
    ensures
        look == (ContainerAppearance {
            background: Some(Rgba { r: 40, g: 40, b: 40, a: 80 }),
            border: Border { color: transparent(), width: 0, radius: 4 },
            text_color: None,
        }),
{
    ContainerAppearance {
        background: Some(Rgba { r: 40, g: 40, b: 40, a: 80 }),
        border: Border { color: Rgba { r: 0, g: 0, b: 0, a: 0 }, width: 0, radius: 4 },
        text_color: None,
    }
}

} // verus!
