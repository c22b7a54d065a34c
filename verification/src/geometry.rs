use vstd::prelude::*;

verus! {

/// Position and size of a window, as the X server reports them.
#[derive(Clone, Copy, Debug, PartialEq, Eq)]
pub struct WindowGeometry {
    pub x: i16,
    pub y: i16,
    pub width: u16,
    pub height: u16,
}

/// Where a mouse drag (move or resize) started.
#[derive(Clone, Copy, Debug, PartialEq, Eq)]
pub struct MouseMoveStart {
    pub root_x: i16,
    pub root_y: i16,
    pub child: u32,
    /// The button that was pressed: 1 moves the window, 3 resizes it.
    pub detail: u8,
    /// The window the pointer was last seen over.
    pub active_win: u32,
}

/// The values of a ConfigureWindow request; `None` leaves a value unchanged.
#[derive(Clone, Copy, Debug, PartialEq, Eq)]
pub struct WindowChanges {
    pub x: Option<i32>,
    pub y: Option<i32>,
    pub width: Option<u32>,
    pub height: Option<u32>,
    pub border_width: Option<u32>,
    /// Restack the window above its siblings.
    pub stack_above: bool,
}

/// ConfigWindow mask bits of the X protocol.
pub const CONFIG_X: u16 = 1;
pub const CONFIG_Y: u16 = 2;
pub const CONFIG_WIDTH: u16 = 4;
pub const CONFIG_HEIGHT: u16 = 8;
pub const CONFIG_BORDER_WIDTH: u16 = 16;

/// The changes a ConfigureRequest asks for: a value is present exactly when
/// its bit is set in `value_mask`. Sibling and stacking are never passed on.
pub open spec fn spec_from_configure_request(
    value_mask: u16,
    x: i16,
    y: i16,
    width: u16,
    height: u16,
    border_width: u16,
) -> WindowChanges {
    WindowChanges {
        x: if value_mask & CONFIG_X != 0 { Some(x as i32) } else { None },
        y: if value_mask & CONFIG_Y != 0 { Some(y as i32) } else { None },
        width: if value_mask & CONFIG_WIDTH != 0 { Some(width as u32) } else { None },
        height: if value_mask & CONFIG_HEIGHT != 0 { Some(height as u32) } else { None },
        border_width: if value_mask & CONFIG_BORDER_WIDTH != 0 {
            Some(border_width as u32)
        } else {
            None
        },
        stack_above: false,
    }
}

/// Builds the changes that pass a client's ConfigureRequest on unaltered
/// (without sibling or stacking).
pub fn from_configure_request(
    value_mask: u16,
    x: i16,
    y: i16,
    width: u16,
    height: u16,
    border_width: u16,
) -> (r: WindowChanges)
    ensures
        r == spec_from_configure_request(value_mask, x, y, width, height, border_width),
{
    WindowChanges {
        x: if value_mask & CONFIG_X != 0 { Some(x as i32) } else { None },
        y: if value_mask & CONFIG_Y != 0 { Some(y as i32) } else { None },
        width: if value_mask & CONFIG_WIDTH != 0 { Some(width as u32) } else { None },
        height: if value_mask & CONFIG_HEIGHT != 0 { Some(height as u32) } else { None },
        border_width: if value_mask & CONFIG_BORDER_WIDTH != 0 {
            Some(border_width as u32)
        } else {
            None
        },
        stack_above: false,
    }
}

/// The changes that only raise a window above its siblings.
pub open spec fn raise_changes() -> WindowChanges {
    WindowChanges {
        x: None,
        y: None,
        width: None,
        height: None,
        border_width: None,
        stack_above: true,
    }
}

/// The changes that place a window at (`x`, `y`) with the given size.
pub open spec fn place_changes(x: i32, y: i32, width: u32, height: u32, border_width: Option<u32>) -> WindowChanges {
    WindowChanges {
        x: Some(x),
        y: Some(y),
        width: Some(width),
        height: Some(height),
        border_width,
        stack_above: false,
    }
}

/// The changes that only resize a window.
pub open spec fn resize_changes(width: u32, height: u32) -> WindowChanges {
    WindowChanges {
        x: None,
        y: None,
        width: Some(width),
        height: Some(height),
        border_width: None,
        stack_above: false,
    }
}

/// The changes that only set the border width.
pub open spec fn border_changes(border_width: u32) -> WindowChanges {
    WindowChanges {
        x: None,
        y: None,
        width: None,
        height: None,
        border_width: Some(border_width),
        stack_above: false,
    }
}

/// Builds `raise_changes()`.
pub fn raise() -> (r: WindowChanges)
    ensures
        r == raise_changes(),
{
    WindowChanges { x: None, y: None, width: None, height: None, border_width: None, stack_above: true }
}

/// Builds `place_changes(x, y, width, height, border_width)`.
pub fn place(x: i32, y: i32, width: u32, height: u32, border_width: Option<u32>) -> (r: WindowChanges)
    ensures
        r == place_changes(x, y, width, height, border_width),
{
    WindowChanges {
        x: Some(x),
        y: Some(y),
        width: Some(width),
        height: Some(height),
        border_width,
        stack_above: false,
    }
}

/// Builds `resize_changes(width, height)`.
pub fn resize(width: u32, height: u32) -> (r: WindowChanges)
    ensures
        r == resize_changes(width, height),
{
    WindowChanges {
        x: None,
        y: None,
        width: Some(width),
        height: Some(height),
        border_width: None,
        stack_above: false,
    }
}

/// Builds `border_changes(border_width)`.
pub fn border(border_width: u32) -> (r: WindowChanges)
    ensures
        r == border_changes(border_width),
{
    WindowChanges {
        x: None,
        y: None,
        width: None,
        height: None,
        border_width: Some(border_width),
        stack_above: false,
    }
}

/// How far the pointer moved horizontally since the drag started.
pub open spec fn drag_dx(start: MouseMoveStart, root_x: i16) -> int {
    root_x - start.root_x
}

/// How far the pointer moved vertically since the drag started.
pub open spec fn drag_dy(start: MouseMoveStart, root_y: i16) -> int {
    root_y - start.root_y
}

/// The horizontal offset a drag applies to the position (button 1 moves).
pub open spec fn move_dx(start: MouseMoveStart, root_x: i16) -> int {
    if start.detail == 1 { drag_dx(start, root_x) } else { 0 }
}

pub open spec fn move_dy(start: MouseMoveStart, root_y: i16) -> int {
    if start.detail == 1 { drag_dy(start, root_y) } else { 0 }
}

/// The offset a drag applies to the size (button 3 resizes).
pub open spec fn resize_dx(start: MouseMoveStart, root_x: i16) -> int {
    if start.detail == 3 { drag_dx(start, root_x) } else { 0 }
}

pub open spec fn resize_dy(start: MouseMoveStart, root_y: i16) -> int {
    if start.detail == 3 { drag_dy(start, root_y) } else { 0 }
}

pub open spec fn fits_i16(v: int) -> bool {
    i16::MIN <= v <= i16::MAX
}

/// Whether one of the 16-bit sums of the drag computation leaves the range
/// of `i16` (an arithmetic overflow, which aborts the program).
pub open spec fn drag_overflows(
    start: MouseMoveStart,
    geom: WindowGeometry,
    root_x: i16,
    root_y: i16,
) -> bool {
    ||| !fits_i16(drag_dx(start, root_x))
    ||| !fits_i16(drag_dy(start, root_y))
    ||| !fits_i16(geom.y + move_dy(start, root_y))
    ||| !fits_i16((geom.width as i16) + resize_dx(start, root_x))
    ||| !fits_i16((geom.height as i16) + resize_dy(start, root_y))
}

/// The larger of 1 and `v`.
pub open spec fn at_least_one(v: int) -> int {
    if v < 1 { 1 } else { v }
}

/// The frame geometry a drag leads to: the start geometry moved (button 1) or
/// resized (button 3) by the pointer's travel; the size is never below 1.
pub open spec fn drag_result(
    start: MouseMoveStart,
    geom: WindowGeometry,
    root_x: i16,
    root_y: i16,
) -> (int, int, int, int) {
    (
        geom.x + move_dx(start, root_x),
        geom.y + move_dy(start, root_y),
        at_least_one((geom.width as i16) + resize_dx(start, root_x)),
        at_least_one((geom.height as i16) + resize_dy(start, root_y)),
    )
}

/// Computes `drag_result`: (x, y, width, height).
pub fn drag_geometry(start: MouseMoveStart, geom: WindowGeometry, root_x: i16, root_y: i16) -> (r: (
    i32,
    i32,
    i16,
    i16,
))
    requires
        !drag_overflows(start, geom, root_x, root_y),
    ensures
        (r.0 as int, r.1 as int, r.2 as int, r.3 as int) == drag_result(start, geom, root_x, root_y),
        r.2 >= 1,
        r.3 >= 1,
{
    let xdiff: i16 = root_x - start.root_x;
    let ydiff: i16 = root_y - start.root_y;
    let x: i32 = geom.x as i32 + (if start.detail == 1 { xdiff } else { 0 }) as i32;
    let y: i32 = (geom.y + if start.detail == 1 { ydiff } else { 0 }) as i32;
    let w: i16 = geom.width as i16 + if start.detail == 3 { xdiff } else { 0 };
    let h: i16 = geom.height as i16 + if start.detail == 3 { ydiff } else { 0 };
    let width: i16 = if w < 1 { 1 } else { w };
    let height: i16 = if h < 1 { 1 } else { h };
    (x, y, width, height)
}

/// Whether the drag computation would overflow.
pub fn check_drag_overflow(start: MouseMoveStart, geom: WindowGeometry, root_x: i16, root_y: i16) -> (r: bool)
    ensures
        r == drag_overflows(start, geom, root_x, root_y),
{
    let dx: i32 = root_x as i32 - start.root_x as i32;
    let dy: i32 = root_y as i32 - start.root_y as i32;
    if dx < -32768 || dx > 32767 || dy < -32768 || dy > 32767 {
        return true;
    }
    let my: i32 = if start.detail == 1 { dy } else { 0 };
    let rx: i32 = if start.detail == 3 { dx } else { 0 };
    let ry: i32 = if start.detail == 3 { dy } else { 0 };
    let sy: i32 = geom.y as i32 + my;
    let sw: i32 = (geom.width as i16) as i32 + rx;
    let sh: i32 = (geom.height as i16) as i32 + ry;
    sy < -32768 || sy > 32767 || sw < -32768 || sw > 32767 || sh < -32768 || sh > 32767
}

} // verus!
