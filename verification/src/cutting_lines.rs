//! Axis-aligned cut segments and the operations the line deriver needs:
//! level grouping, the crossing guard, and the union of two collinear
//! segments.

use vstd::prelude::*;
use core::cmp::Ordering;

use crate::cut_disposition::Vertex;

verus! {

/// An axis-aligned cut segment.
#[derive(Clone, Copy, Debug, PartialEq, Eq, Structural)]
pub struct Line {
    pub start: Vertex,
    pub end: Vertex,
}

/// The segments of a finished layout, one list per axis.
#[derive(Clone, Debug, PartialEq)]
pub struct CuttingLines {
    pub vertical_lines: Vec<Line>,
    pub horizontal_lines: Vec<Line>,
}

pub open spec fn spec_is_vertical(l: Line) -> bool {
    l.start.pos_x == l.end.pos_x
}

/// Both segments run on the same axis at the same level.
pub open spec fn spec_same_level(a: Line, b: Line) -> bool {
    if spec_is_vertical(a) == spec_is_vertical(b) {
        if spec_is_vertical(a) {
            a.start.pos_x == b.start.pos_x
        } else {
            a.start.pos_y == b.start.pos_y
        }
    } else {
        false
    }
}

/// The interior of `b` lies strictly across `a`: `a` runs through a level
/// strictly inside `b`'s span while `b`'s level is strictly inside `a`'s
/// span. Endpoint touches do not count.
pub open spec fn spec_cross_perpend(a: Line, b: Line) -> bool {
    ||| (a.start.pos_y < b.start.pos_y && a.end.pos_y > b.start.pos_y
        && b.start.pos_x < a.start.pos_x && b.end.pos_x > a.start.pos_x)
    ||| (a.start.pos_y > b.start.pos_y && a.start.pos_y < b.end.pos_y
        && b.start.pos_x > a.start.pos_x && b.start.pos_x < a.end.pos_x)
}

/// The union span of two collinear segments, on the axis of `a`.
pub open spec fn spec_combine(a: Line, b: Line) -> Line {
    if spec_is_vertical(a) {
        Line {
            start: if a.start.pos_y > b.start.pos_y { b.start } else { a.start },
            end: if a.end.pos_y < b.end.pos_y { b.end } else { a.end },
        }
    } else {
        Line {
            start: if a.start.pos_x > b.start.pos_x { b.start } else { a.start },
            end: if a.end.pos_x < b.end.pos_x { b.end } else { a.end },
        }
    }
}

/// Strict order of horizontal segments: top to bottom, then left to right.
pub open spec fn spec_horizontal_before(a: Line, b: Line) -> bool {
    a.start.pos_y < b.start.pos_y
        || (a.start.pos_y == b.start.pos_y && a.start.pos_x < b.start.pos_x)
}

/// Strict order of vertical segments: left to right, then top to bottom.
pub open spec fn spec_vertical_before(a: Line, b: Line) -> bool {
    a.start.pos_x < b.start.pos_x
        || (a.start.pos_x == b.start.pos_x && a.start.pos_y < b.start.pos_y)
}

pub fn line_horizontal_closest_to_top_comparator(first: &Line, second: &Line) -> (r: Ordering)
    ensures
        r == (if spec_horizontal_before(*first, *second) {
            Ordering::Less
        } else if first.start.pos_y == second.start.pos_y
            && first.start.pos_x == second.start.pos_x {
            Ordering::Equal
        } else {
            Ordering::Greater
        }),
{
    if first.start.pos_y < second.start.pos_y
        || (first.start.pos_y == second.start.pos_y && first.start.pos_x < second.start.pos_x) {
        Ordering::Less
    } else if first.start.pos_y == second.start.pos_y && first.start.pos_x == second.start.pos_x {
        Ordering::Equal
    } else {
        Ordering::Greater
    }
}

pub fn line_vertical_closest_to_left_comparator(first: &Line, second: &Line) -> (r: Ordering)
    ensures
        r == (if spec_vertical_before(*first, *second) {
            Ordering::Less
        } else if first.start.pos_x == second.start.pos_x
            && first.start.pos_y == second.start.pos_y {
            Ordering::Equal
        } else {
            Ordering::Greater
        }),
{
    if first.start.pos_x < second.start.pos_x
        || (first.start.pos_x == second.start.pos_x && first.start.pos_y < second.start.pos_y) {
        Ordering::Less
    } else if first.start.pos_x == second.start.pos_x && first.start.pos_y == second.start.pos_y {
        Ordering::Equal
    } else {
        Ordering::Greater
    }
}

impl Line {
    pub fn is_vertical(&self) -> (r: bool)
        ensures
            r == spec_is_vertical(*self),
    {
        self.start.pos_x == self.end.pos_x
    }

    pub fn is_same_level(&self, line: &Line) -> (r: bool)
        ensures
            r == spec_same_level(*self, *line),
    {
        if self.is_vertical() == line.is_vertical() {
            if self.is_vertical() {
                return self.start.pos_x == line.start.pos_x;
            } else {
                return self.start.pos_y == line.start.pos_y;
            }
        }
        false
    }

    pub fn cross_perpend(&self, line: &Line) -> (r: bool)
        ensures
            r == spec_cross_perpend(*self, *line),
    {
        (self.start.pos_y < line.start.pos_y && self.end.pos_y > line.start.pos_y
            && line.start.pos_x < self.start.pos_x && line.end.pos_x > self.start.pos_x)
        || (self.start.pos_y > line.start.pos_y && self.start.pos_y < line.end.pos_y
            && line.start.pos_x > self.start.pos_x && line.start.pos_x < self.end.pos_x)
    }

    pub fn combine(&self, line: &Line) -> (r: Line)
        ensures
            r == spec_combine(*self, *line),
    {
        let mut start = self.start;
        let mut end = self.end;

        if self.is_vertical() {
            if start.pos_y > line.start.pos_y {
                start = line.start;
            }
            if end.pos_y < line.end.pos_y {
                end = line.end;
            }
        } else {
            if start.pos_x > line.start.pos_x {
                start = line.start;
            }
            if end.pos_x < line.end.pos_x {
                end = line.end;
            }
        }

        Line { start, end }
    }
}

} // verus!
