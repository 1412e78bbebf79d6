//! Screen-space geometry: points, sizes, rectangles, and the clipping rule
//! that confines every draw request to the configured surface bounds.

use vstd::prelude::*;

use crate::color::Color;

verus! {

/// A pixel coordinate. Coordinates may lie outside the surface; such
/// requests are clipped, never drawn.
#[derive(Clone, Copy, Debug, PartialEq, Eq, Structural)]
pub struct Point {
    pub x: i32,
    pub y: i32,
}

/// A width and height in pixels.
#[derive(Clone, Copy, Debug, PartialEq, Eq, Structural)]
pub struct Size {
    pub width: u32,
    pub height: u32,
}

/// An axis-aligned rectangle given by its top-left corner and its size.
#[derive(Clone, Copy, Debug, PartialEq, Eq, Structural)]
pub struct Rectangle {
    pub top_left: Point,
    pub size: Size,
}

/// A single pixel: a coordinate and the color to plot there.
#[derive(Clone, Copy, Debug, PartialEq, Eq, Structural)]
pub struct Pixel(pub Point, pub Color);

impl Point {
    pub fn new(x: i32, y: i32) -> (p: Point)
        ensures
            p == (Point { x, y }),
    {
        Point { x, y }
    }
}

impl Size {
    pub fn new(width: u32, height: u32) -> (s: Size)
        ensures
            s == (Size { width, height }),
    {
        Size { width, height }
    }
}

impl Rectangle {
    pub fn new(top_left: Point, size: Size) -> (r: Rectangle)
        ensures
            r == (Rectangle { top_left, size }),
    {
        Rectangle { top_left, size }
    }
}

/// The closed pixel range `[x0, x1] x [y0, y1]` that `area` covers once it
/// is clipped to a `width x height` surface, or `None` when nothing of it
/// lies on the surface. A pixel belongs to `area` when its center lies
/// within the closed rectangle spanned by `area`'s top-left and
/// bottom-right corners.
pub open spec fn clip_rect(area: Rectangle, width: u16, height: u16) -> Option<(int, int, int, int)> {
    let left = area.top_left.x as int;
    let top = area.top_left.y as int;
    let right = left + area.size.width as int - 1;
    let bottom = top + area.size.height as int - 1;
    let x0 = if left >= 0 { left } else { 0 };
    let y0 = if top >= 0 { top } else { 0 };
    let x1 = if right <= width as int - 1 { right } else { width as int - 1 };
    let y1 = if bottom <= height as int - 1 { bottom } else { height as int - 1 };
    if area.size.width == 0 || area.size.height == 0 || x0 > x1 || y0 > y1 {
        None
    } else {
        Some((x0, y0, x1, y1))
    }
}

/// Clips `area` to a `width x height` surface, returning the covered closed
/// pixel range, or `None` when the rectangle misses the surface entirely.
pub fn clip(area: &Rectangle, width: u16, height: u16) -> (r: Option<(u16, u16, u16, u16)>)
    ensures
        ({
            let s = clip_rect(*area, width, height);
            match r {
                Some((x0, y0, x1, y1)) => s == Some((x0 as int, y0 as int, x1 as int, y1 as int)),
                None => s is None,
            }
        }),
{
    if area.size.width == 0 || area.size.height == 0 {
        return None;
    }
    let left: i64 = area.top_left.x as i64;
    let top: i64 = area.top_left.y as i64;
    let right: i64 = left + area.size.width as i64 - 1;
    let bottom: i64 = top + area.size.height as i64 - 1;
    let x0: i64 = if left >= 0 { left } else { 0 };
    let y0: i64 = if top >= 0 { top } else { 0 };
    let xmax: i64 = width as i64 - 1;
    let ymax: i64 = height as i64 - 1;
    let x1: i64 = if right <= xmax { right } else { xmax };
    let y1: i64 = if bottom <= ymax { bottom } else { ymax };
    if x0 > x1 || y0 > y1 {
        None
    } else {
        Some((x0 as u16, y0 as u16, x1 as u16, y1 as u16))
    }
}

} // verus!
