//! The cutting-line deriver: the four edges of every placed rectangle,
//! merged into longer collinear segments where no perpendicular segment
//! would be crossed, then sorted into a deterministic traversal order.

use vstd::prelude::*;

use crate::cut_disposition::{MAX_COORDINATE, PositionedRectangle, Vertex, anchor_in_range};
use crate::cut_disposition_service::spec_list_in_band;
use crate::cutting_lines::{
    CuttingLines, Line, spec_combine, spec_cross_perpend, spec_same_level,
};
use crate::sorting::{LeftToRightSweep, TopToBottomSweep, sort_by_order, sort_ordered};

verus! {

pub open spec fn spec_left_line(p: PositionedRectangle) -> Line {
    Line {
        start: p.top_left_vertex,
        end: Vertex {
            pos_x: p.top_left_vertex.pos_x,
            pos_y: (p.top_left_vertex.pos_y + p.length) as i32,
        },
    }
}

pub open spec fn spec_rigth_line(p: PositionedRectangle) -> Line {
    Line {
        start: Vertex {
            pos_x: (p.top_left_vertex.pos_x + p.width) as i32,
            pos_y: p.top_left_vertex.pos_y,
        },
        end: Vertex {
            pos_x: (p.top_left_vertex.pos_x + p.width) as i32,
            pos_y: (p.top_left_vertex.pos_y + p.length) as i32,
        },
    }
}

pub open spec fn spec_top_line(p: PositionedRectangle) -> Line {
    Line {
        start: p.top_left_vertex,
        end: Vertex {
            pos_x: (p.top_left_vertex.pos_x + p.width) as i32,
            pos_y: p.top_left_vertex.pos_y,
        },
    }
}

pub open spec fn spec_bottom_line(p: PositionedRectangle) -> Line {
    Line {
        start: Vertex {
            pos_x: p.top_left_vertex.pos_x,
            pos_y: (p.top_left_vertex.pos_y + p.length) as i32,
        },
        end: Vertex {
            pos_x: (p.top_left_vertex.pos_x + p.width) as i32,
            pos_y: (p.top_left_vertex.pos_y + p.length) as i32,
        },
    }
}

/// The left and right edges of every rectangle, in input order.
pub open spec fn spec_vertical_edges(rects: Seq<PositionedRectangle>) -> Seq<Line>
    decreases rects.len(),
{
    if rects.len() == 0 {
        Seq::<Line>::empty()
    } else {
        spec_vertical_edges(rects.drop_last())
            + seq![spec_left_line(rects.last()), spec_rigth_line(rects.last())]
    }
}

/// The top and bottom edges of every rectangle, in input order.
pub open spec fn spec_horizontal_edges(rects: Seq<PositionedRectangle>) -> Seq<Line>
    decreases rects.len(),
{
    if rects.len() == 0 {
        Seq::<Line>::empty()
    } else {
        spec_horizontal_edges(rects.drop_last())
            + seq![spec_top_line(rects.last()), spec_bottom_line(rects.last())]
    }
}

/// The optional leading reference line marking the material start edge.
pub open spec fn spec_separation_line(width: Option<i32>) -> Seq<Line> {
    match width {
        Some(w) => if w > 0 {
            seq![Line {
                start: Vertex { pos_x: 0, pos_y: 0 },
                end: Vertex { pos_x: w, pos_y: 0 },
            }]
        } else {
            Seq::<Line>::empty()
        },
        None => Seq::<Line>::empty(),
    }
}

/// `l` strictly crosses some member of `guards`.
pub open spec fn spec_crosses_any(l: Line, guards: Seq<Line>) -> bool {
    exists|i: int| 0 <= i < guards.len() && spec_cross_perpend(l, #[trigger] guards[i])
}

/// The scan of the accepted segments from position `j`: the first same-level
/// segment whose union with `line` crosses no guard yields that union.
pub open spec fn spec_scan_combine(line: Line, result: Seq<Line>, j: int, guards: Seq<Line>)
    -> Option<Line>
    decreases result.len() - j,
{
    if j < 0 || j >= result.len() {
        None
    } else if spec_same_level(line, result[j])
        && !spec_crosses_any(spec_combine(line, result[j]), guards) {
        Some(spec_combine(line, result[j]))
    } else {
        spec_scan_combine(line, result, j + 1, guards)
    }
}

/// One input segment handled: its union with the first safe same-level
/// accepted segment, or the segment itself when no union is safe.
pub open spec fn spec_combine_step(result: Seq<Line>, line: Line, guards: Seq<Line>)
    -> Seq<Line> {
    match spec_scan_combine(line, result, 0, guards) {
        Some(c) => result.push(c),
        None => result.push(line),
    }
}

/// The merge pass over the first `k` input segments.
pub open spec fn spec_combine_fold(lines: Seq<Line>, k: int, guards: Seq<Line>) -> Seq<Line>
    decreases k,
{
    if k <= 0 {
        Seq::<Line>::empty()
    } else {
        spec_combine_step(spec_combine_fold(lines, k - 1, guards), lines[k - 1], guards)
    }
}

/// Merge safety of a result list: every accepted segment either is one of
/// the input segments or crosses no segment of the other axis.
pub open spec fn spec_merge_safe(result: Seq<Line>, lines: Seq<Line>, guards: Seq<Line>)
    -> bool {
    forall|i: int| 0 <= i < result.len()
        ==> lines.contains(#[trigger] result[i]) || !spec_crosses_any(result[i], guards)
}

fn crosses_any(l: &Line, guards: &Vec<Line>) -> (r: bool)
    ensures
        r == spec_crosses_any(*l, guards@),
{
    let n = guards.len();
    for i in 0..n
        invariant
            n == guards.len(),
            forall|j: int| 0 <= j < i ==> !spec_cross_perpend(*l, #[trigger] guards@[j]),
    {
        if l.cross_perpend(&guards[i]) {
            return true;
        }
    }
    false
}

/// A scan that accepts a union only in its no-cross branch never hands out
/// a crossing union.
proof fn lemma_scan_combine_safe(line: Line, result: Seq<Line>, j: int, guards: Seq<Line>)
    ensures
        match spec_scan_combine(line, result, j, guards) {
            Some(c) => !spec_crosses_any(c, guards),
            None => true,
        },
    decreases result.len() - j,
{
    if 0 <= j < result.len() {
        if !(spec_same_level(line, result[j])
            && !spec_crosses_any(spec_combine(line, result[j]), guards)) {
            lemma_scan_combine_safe(line, result, j + 1, guards);
        }
    }
}

/// The first safe union of `line` with an already-accepted segment, scanned
/// in acceptance order.
fn scan_for_combine(line: &Line, result: &Vec<Line>, guards: &Vec<Line>) -> (r: Option<Line>)
    ensures
        r == spec_scan_combine(*line, result@, 0, guards@),
{
    let m = result.len();
    for j in 0..m
        invariant
            m == result.len(),
            spec_scan_combine(*line, result@, 0, guards@)
                == spec_scan_combine(*line, result@, j as int, guards@),
    {
        let existing_result_line = result[j];
        if line.is_same_level(&existing_result_line) {
            let combined_line = line.combine(&existing_result_line);
            if !crosses_any(&combined_line, guards) {
                return Some(combined_line);
            }
        }
    }
    None
}

pub fn combine_lines(lines_to_be_combined: &Vec<Line>, lines_not_to_be_crossed: &Vec<Line>)
    -> (r: Vec<Line>)
    ensures
        r@ == spec_combine_fold(lines_to_be_combined@, lines_to_be_combined@.len() as int,
            lines_not_to_be_crossed@),
        spec_merge_safe(r@, lines_to_be_combined@, lines_not_to_be_crossed@),
{
    let ghost lines = lines_to_be_combined@;
    let ghost guards = lines_not_to_be_crossed@;
    let mut lines_result_list: Vec<Line> = Vec::new();

    let n = lines_to_be_combined.len();
    for k in 0..n
        invariant
            n == lines_to_be_combined.len(),
            lines == lines_to_be_combined@,
            guards == lines_not_to_be_crossed@,
            lines_result_list@ == spec_combine_fold(lines, k as int, guards),
            spec_merge_safe(lines_result_list@, lines, guards),
    {
        let line = lines_to_be_combined[k];
        let ghost result_entry = lines_result_list@;

        match scan_for_combine(&line, &lines_result_list, lines_not_to_be_crossed) {
            Some(combined_line) => {
                proof {
                    lemma_scan_combine_safe(line, result_entry, 0, guards);
                }
                lines_result_list.push(combined_line);
            },
            None => {
                lines_result_list.push(line);
                proof {
                    assert(lines.contains(line)) by {
                        assert(lines[k as int] == line);
                    }
                }
            },
        }
    }
    lines_result_list
}

pub fn define_cutting_lines(
    positioned_rectangle_list: Vec<PositionedRectangle>,
    textile_separation_line_width: Option<i32>,
) -> (r: CuttingLines)
    requires
        spec_list_in_band(positioned_rectangle_list@),
    ensures
        ({
            let rects = positioned_rectangle_list@;
            let v_edges = spec_vertical_edges(rects);
            let h_all = spec_separation_line(textile_separation_line_width)
                + spec_horizontal_edges(rects);
            &&& r.vertical_lines@ == sort_ordered::<LeftToRightSweep, Line>(
                spec_combine_fold(v_edges, v_edges.len() as int, h_all))
            &&& r.horizontal_lines@ == sort_ordered::<TopToBottomSweep, Line>(
                spec_combine_fold(h_all, h_all.len() as int, v_edges))
            &&& spec_merge_safe(r.vertical_lines@, v_edges, h_all)
            &&& spec_merge_safe(r.horizontal_lines@, h_all, v_edges)
        }),
{
    let ghost rects = positioned_rectangle_list@;
    let mut vertical_lines: Vec<Line> = Vec::new();
    let mut horizontal_lines: Vec<Line> = Vec::new();

    match textile_separation_line_width {
        Some(width) => {
            if width > 0 {
                horizontal_lines.push(Line {
                    start: Vertex { pos_x: 0, pos_y: 0 },
                    end: Vertex { pos_x: width, pos_y: 0 },
                });
            }
        },
        None => {},
    };
    proof {
        assert(horizontal_lines@
            =~= spec_separation_line(textile_separation_line_width));
    }

    let n = positioned_rectangle_list.len();
    for i in 0..n
        invariant
            n == positioned_rectangle_list.len(),
            rects == positioned_rectangle_list@,
            spec_list_in_band(rects),
            vertical_lines@ == spec_vertical_edges(rects.subrange(0, i as int)),
            horizontal_lines@ == spec_separation_line(textile_separation_line_width)
                + spec_horizontal_edges(rects.subrange(0, i as int)),
    {
        let positioned_rectangle = positioned_rectangle_list[i];
        vertical_lines.push(get_left_line(&positioned_rectangle));
        vertical_lines.push(get_rigth_line(&positioned_rectangle));

        horizontal_lines.push(get_top_line(&positioned_rectangle));
        horizontal_lines.push(get_bottom_line(&positioned_rectangle));
        proof {
            assert(rects.subrange(0, i + 1).drop_last() =~= rects.subrange(0, i as int));
            assert(vertical_lines@ =~= spec_vertical_edges(rects.subrange(0, i + 1)));
            assert(horizontal_lines@
                =~= spec_separation_line(textile_separation_line_width)
                    + spec_horizontal_edges(rects.subrange(0, i + 1)));
        }
    }
    proof {
        assert(rects.subrange(0, n as int) =~= rects);
    }

    let mut vertical_lines_result_list = combine_lines(&vertical_lines, &horizontal_lines);

    let mut horizontal_lines_result_list = combine_lines(&horizontal_lines, &vertical_lines);

    sort_by_order::<LeftToRightSweep, Line>(&mut vertical_lines_result_list);

    sort_by_order::<TopToBottomSweep, Line>(&mut horizontal_lines_result_list);

    proof {
        let v_edges = spec_vertical_edges(rects);
        let h_all = spec_separation_line(textile_separation_line_width)
            + spec_horizontal_edges(rects);
        let v_pre = spec_combine_fold(v_edges, v_edges.len() as int, h_all);
        let h_pre = spec_combine_fold(h_all, h_all.len() as int, v_edges);
        crate::sorting::lemma_sort_ordered_membership::<LeftToRightSweep, Line>(v_pre);
        crate::sorting::lemma_sort_ordered_membership::<TopToBottomSweep, Line>(h_pre);
        assert forall|i: int| 0 <= i < vertical_lines_result_list@.len()
            implies v_edges.contains(#[trigger] vertical_lines_result_list@[i])
                || !spec_crosses_any(vertical_lines_result_list@[i], h_all) by {
            assert(v_pre.contains(vertical_lines_result_list@[i]));
            let j = choose|j: int| 0 <= j < v_pre.len()
                && v_pre[j] == vertical_lines_result_list@[i];
            assert(v_edges.contains(v_pre[j]) || !spec_crosses_any(v_pre[j], h_all));
        }
        assert forall|i: int| 0 <= i < horizontal_lines_result_list@.len()
            implies h_all.contains(#[trigger] horizontal_lines_result_list@[i])
                || !spec_crosses_any(horizontal_lines_result_list@[i], v_edges) by {
            assert(h_pre.contains(horizontal_lines_result_list@[i]));
            let j = choose|j: int| 0 <= j < h_pre.len()
                && h_pre[j] == horizontal_lines_result_list@[i];
            assert(h_all.contains(h_pre[j]) || !spec_crosses_any(h_pre[j], v_edges));
        }
    }

    CuttingLines {
        vertical_lines: vertical_lines_result_list,
        horizontal_lines: horizontal_lines_result_list,
    }
}

fn get_left_line(p: &PositionedRectangle) -> (r: Line)
    requires
        anchor_in_range(p.top_left_vertex),
        0 <= p.width <= MAX_COORDINATE,
        0 <= p.length <= MAX_COORDINATE,
    ensures
        r == spec_left_line(*p),
{
    let vertices = p.get_vertices();
    Line { start: vertices.top_left_vertex, end: vertices.bottom_left_vertex }
}

fn get_rigth_line(p: &PositionedRectangle) -> (r: Line)
    requires
        anchor_in_range(p.top_left_vertex),
        0 <= p.width <= MAX_COORDINATE,
        0 <= p.length <= MAX_COORDINATE,
    ensures
        r == spec_rigth_line(*p),
{
    let vertices = p.get_vertices();
    Line { start: vertices.top_rigth_vertex, end: vertices.bottom_rigth_vertex }
}

fn get_top_line(p: &PositionedRectangle) -> (r: Line)
    requires
        anchor_in_range(p.top_left_vertex),
        0 <= p.width <= MAX_COORDINATE,
        0 <= p.length <= MAX_COORDINATE,
    ensures
        r == spec_top_line(*p),
{
    let vertices = p.get_vertices();
    Line { start: vertices.top_left_vertex, end: vertices.top_rigth_vertex }
}

fn get_bottom_line(p: &PositionedRectangle) -> (r: Line)
    requires
        anchor_in_range(p.top_left_vertex),
        0 <= p.width <= MAX_COORDINATE,
        0 <= p.length <= MAX_COORDINATE,
    ensures
        r == spec_bottom_line(*p),
{
    let vertices = p.get_vertices();
    Line { start: vertices.bottom_left_vertex, end: vertices.bottom_rigth_vertex }
}

} // verus!
