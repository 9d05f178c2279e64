//! Splitting a terminal area into parts, and locating a point in a part.
use vstd::prelude::*;

verus! {

/// A rectangle of terminal cells.
#[derive(Debug, Clone, Copy, PartialEq, Eq, Structural)]
pub struct Rect {
    pub x: u16,
    pub y: u16,
    pub width: u16,
    pub height: u16,
}

/// Splits `f` into a top part `start_size` rows high and the rest below it.
pub fn split_y_start(f: Rect, start_size: u16) -> (r: [Rect; 2])
    requires
        start_size <= f.height,
        f.y + start_size <= u16::MAX,
    ensures
        r[0] == (Rect { height: start_size, ..f }),
        r[1] == (Rect { y: (f.y + start_size) as u16, height: (f.height - start_size) as u16, ..f }),
{
    let mut top = f;
    top.height = start_size;
    let mut rest = f;
    rest.y = rest.y + start_size;
    rest.height = rest.height - start_size;
    [top, rest]
}

/// Splits `f` into the rest on top and a bottom part `end_size` rows high.
pub fn split_y(f: Rect, end_size: u16) -> (r: [Rect; 2])
    requires
        end_size <= f.height,
        f.y + f.height - end_size <= u16::MAX,
    ensures
        r[0] == (Rect { height: (f.height - end_size) as u16, ..f }),
        r[1] == (Rect { y: (f.y + f.height - end_size) as u16, height: end_size, ..f }),
{
    let mut top = f;
    top.height = top.height - end_size;
    let mut bottom = f;
    bottom.y = bottom.y + (bottom.height - end_size);
    bottom.height = end_size;
    [top, bottom]
}

/// Splits `f` into the rest on the left and a right part `end_size` columns wide.
pub fn split_x(f: Rect, end_size: u16) -> (r: [Rect; 2])
    requires
        end_size <= f.width,
        f.x + f.width - end_size <= u16::MAX,
    ensures
        r[0] == (Rect { width: (f.width - end_size) as u16, ..f }),
        r[1] == (Rect { x: (f.x + f.width - end_size) as u16, width: end_size, ..f }),
{
    let mut left = f;
    left.width = left.width - end_size;
    let mut right = f;
    right.x = right.x + (right.width - end_size);
    right.width = end_size;
    [left, right]
}

/// Whether the cell (`x`, `y`) lies in `rect` shrunk by `margin` on each side.
pub open spec fn contains_spec(rect: Rect, x: u16, y: u16, margin: u16) -> bool {
    &&& rect.x + margin <= x
    &&& x <= rect.x + rect.width - margin
    &&& rect.y + margin <= y
    &&& y <= rect.y + rect.height - margin
}

pub fn rect_contains(rect: &Rect, x: u16, y: u16, margin: u16) -> (r: bool)
    ensures
        r == contains_spec(*rect, x, y, margin),
{
    let rx = rect.x as u32;
    let ry = rect.y as u32;
    let m = margin as u32;
    rx + m <= x as u32 && x as u32 + m <= rx + rect.width as u32 && ry + m <= y as u32 && y as u32 + m
        <= ry + rect.height as u32
}

/// The cell (`x`, `y`) relative to the inner corner of `rect` shrunk by `margin`.
pub fn relative_pos(rect: &Rect, x: u16, y: u16, margin: u16) -> (r: (u16, u16))
    requires
        rect.x + margin <= x,
        rect.y + margin <= y,
    ensures
        r.0 == x - rect.x - margin,
        r.1 == y - rect.y - margin,
{
    (x - rect.x - margin, y - rect.y - margin)
}

} // verus!
