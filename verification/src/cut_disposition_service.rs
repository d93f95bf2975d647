//! The layout engine: greedy first-fit placement of pieces over a growing
//! pool of anchor vertices, filler placement into the leftover area, and the
//! assembly of the full layout output.
//!
//! Every stage is specified functionally: the result of a run equals a fold
//! of placement steps written as spec functions, so identical input yields
//! identical output. The no-overlap, containment and conservation laws are
//! stated as further postconditions.

use vstd::prelude::*;
use vstd::multiset::Multiset;
use core::cmp::Ordering;

use crate::cut_disposition::{
    CutDispositionInput, CutDispositionOutput, MAX_COORDINATE, PositionedRectangle,
    PositionedRectangleVertices, Rectangle, Vertex, anchor_in_range, bottom_edge,
    positioned_in_range, rectangle_in_range, right_edge,
};
use crate::sorting::{SweepOrder, TopLeftSweep, WidthLengthSweep, sort_by_order, sort_ordered};
use crate::utils::copy_vec;

verus! {

/// The rectangle placed with its top-left corner at `v`.
pub open spec fn spec_place_at(rect: Rectangle, v: Vertex) -> PositionedRectangle {
    PositionedRectangle { id: rect.id, width: rect.width, length: rect.length, top_left_vertex: v }
}

/// The subject lies inside `[0, max_width] x [0, max_length]`.
pub open spec fn spec_within_boundaries(
    subject: PositionedRectangle, max_width: int, max_length: int,
) -> bool {
    &&& right_edge(subject) <= max_width
    &&& bottom_edge(subject) <= max_length
    &&& subject.top_left_vertex.pos_x >= 0
    &&& subject.top_left_vertex.pos_y >= 0
}

/// The footprints of `first` and `second`, inflated by `spacing`, overlap on
/// both axes; a gap of exactly `spacing` does not count.
pub open spec fn spec_intersect(
    first: PositionedRectangle, second: PositionedRectangle, spacing: int,
) -> bool {
    &&& second.top_left_vertex.pos_y < bottom_edge(first) + spacing
    &&& right_edge(second) + spacing > first.top_left_vertex.pos_x
    &&& bottom_edge(second) + spacing > first.top_left_vertex.pos_y
    &&& second.top_left_vertex.pos_x < right_edge(first) + spacing
}

/// `subject` conflicts with some member of `list` under `spacing`.
pub open spec fn spec_intersects_any(
    subject: PositionedRectangle, list: Seq<PositionedRectangle>, spacing: int,
) -> bool {
    exists|i: int| 0 <= i < list.len() && spec_intersect(subject, #[trigger] list[i], spacing)
}

/// The piece fits at anchor `v`: in bounds, clear of every placed piece under
/// `spacing`, and clear of every prohibited area with no gap required.
pub open spec fn spec_candidate_ok(
    rect: Rectangle, v: Vertex, placed: Seq<PositionedRectangle>,
    zones: Seq<PositionedRectangle>, spacing: int, max_width: int, max_length: int,
) -> bool {
    let subject = spec_place_at(rect, v);
    &&& spec_within_boundaries(subject, max_width, max_length)
    &&& !spec_intersects_any(subject, placed, spacing)
    &&& !spec_intersects_any(subject, zones, 0)
}

/// Position of the first anchor at or after `k` where the piece fits.
pub open spec fn spec_first_fit_from(
    rect: Rectangle, pool: Seq<Vertex>, k: int, placed: Seq<PositionedRectangle>,
    zones: Seq<PositionedRectangle>, spacing: int, max_width: int, max_length: int,
) -> Option<int>
    decreases pool.len() - k,
{
    if k < 0 || k >= pool.len() {
        None
    } else if spec_candidate_ok(rect, pool[k], placed, zones, spacing, max_width, max_length) {
        Some(k)
    } else {
        spec_first_fit_from(rect, pool, k + 1, placed, zones, spacing, max_width, max_length)
    }
}

/// The two anchors a fresh placement opens, in the order the main placement
/// loop appends them: below the bottom-left corner, then right of the
/// top-right corner.
pub open spec fn spec_vertices_for_positioning(p: PositionedRectangle, spacing: int) -> Seq<Vertex> {
    seq![
        Vertex {
            pos_x: p.top_left_vertex.pos_x,
            pos_y: (bottom_edge(p) + spacing) as i32,
        },
        Vertex {
            pos_x: (right_edge(p) + spacing) as i32,
            pos_y: p.top_left_vertex.pos_y,
        },
    ]
}

/// The same two anchors in the order used when seeding from a rectangle
/// directly: right of the top-right corner, then below the bottom-left.
pub open spec fn spec_available_vertices(p: PositionedRectangle, spacing: int) -> Seq<Vertex> {
    seq![
        Vertex {
            pos_x: (right_edge(p) + spacing) as i32,
            pos_y: p.top_left_vertex.pos_y,
        },
        Vertex {
            pos_x: p.top_left_vertex.pos_x,
            pos_y: (bottom_edge(p) + spacing) as i32,
        },
    ]
}

/// Anchors a prohibited area contributes: its two exit corners, plus one
/// anchor at the top of its column and one at the left of its row, so the
/// strips above and left of the area are not wasted.
pub open spec fn spec_zone_vertices(zone: PositionedRectangle) -> Seq<Vertex> {
    spec_available_vertices(zone, 0)
        + seq![
            Vertex { pos_x: zone.top_left_vertex.pos_x, pos_y: 0 },
            Vertex { pos_x: 0, pos_y: zone.top_left_vertex.pos_y },
        ]
}

/// The anchor pool before any piece is placed: the origin, then the anchors
/// of each prohibited area in input order.
pub open spec fn spec_initial_pool(zones: Seq<PositionedRectangle>) -> Seq<Vertex>
    decreases zones.len(),
{
    if zones.len() == 0 {
        seq![Vertex { pos_x: 0, pos_y: 0 }]
    } else {
        spec_initial_pool(zones.drop_last()) + spec_zone_vertices(zones.last())
    }
}

/// The state the main placement loop carries from piece to piece.
pub struct PlacementState {
    pub pool: Seq<Vertex>,
    pub placed: Seq<PositionedRectangle>,
    pub unused: Seq<Rectangle>,
}

/// One piece handled: the pool is sorted top-left first, the piece lands on
/// the first fitting anchor (consuming it and opening two new ones), or
/// joins the unused list if no anchor fits.
pub open spec fn spec_place_step(
    st: PlacementState, rect: Rectangle, zones: Seq<PositionedRectangle>,
    spacing: int, max_width: int, max_length: int,
) -> PlacementState {
    let pool = sort_ordered::<TopLeftSweep, Vertex>(st.pool);
    match spec_first_fit_from(rect, pool, 0, st.placed, zones, spacing, max_width, max_length) {
        Some(i) => {
            let pr = spec_place_at(rect, pool[i]);
            PlacementState {
                pool: pool.remove(i) + spec_vertices_for_positioning(pr, spacing),
                placed: st.placed.push(pr),
                unused: st.unused,
            }
        },
        None => PlacementState { pool, placed: st.placed, unused: st.unused.push(rect) },
    }
}

/// The placement fold over the first `k` pieces of `rects`.
pub open spec fn spec_place_fold(
    rects: Seq<Rectangle>, k: int, zones: Seq<PositionedRectangle>,
    spacing: int, max_width: int, max_length: int,
) -> PlacementState
    decreases k,
{
    if k <= 0 {
        PlacementState {
            pool: spec_initial_pool(zones),
            placed: Seq::<PositionedRectangle>::empty(),
            unused: Seq::<Rectangle>::empty(),
        }
    } else {
        spec_place_step(
            spec_place_fold(rects, k - 1, zones, spacing, max_width, max_length),
            rects[k - 1], zones, spacing, max_width, max_length,
        )
    }
}

/// The largest bottom edge among `placed`, or 0 when nothing is placed.
pub open spec fn spec_length_used(placed: Seq<PositionedRectangle>) -> int
    decreases placed.len(),
{
    if placed.len() == 0 {
        0
    } else {
        let rest = spec_length_used(placed.drop_last());
        if bottom_edge(placed.last()) > rest {
            bottom_edge(placed.last())
        } else {
            rest
        }
    }
}

/// No two distinct members of `placed` conflict under `spacing`.
pub open spec fn spec_no_conflicts(placed: Seq<PositionedRectangle>, spacing: int) -> bool {
    forall|i: int, j: int|
        0 <= i < placed.len() && 0 <= j < placed.len() && i != j
            ==> !spec_intersect(#[trigger] placed[i], #[trigger] placed[j], spacing)
}

/// No member of `placed` touches any of `zones`, with no gap required.
pub open spec fn spec_clear_of_zones(
    placed: Seq<PositionedRectangle>, zones: Seq<PositionedRectangle>,
) -> bool {
    forall|i: int, z: int|
        0 <= i < placed.len() && 0 <= z < zones.len()
            ==> !spec_intersect(#[trigger] placed[i], #[trigger] zones[z], 0)
}

/// Every member of `placed` lies within the sheet.
pub open spec fn spec_all_within(
    placed: Seq<PositionedRectangle>, max_width: int, max_length: int,
) -> bool {
    forall|i: int| 0 <= i < placed.len()
        ==> spec_within_boundaries(#[trigger] placed[i], max_width, max_length)
}

/// The piece a placement came from.
pub open spec fn spec_strip(p: PositionedRectangle) -> Rectangle {
    Rectangle { id: p.id, width: p.width, length: p.length }
}

/// The pieces of `placed`, as they were before placement.
pub open spec fn spec_strip_all(placed: Seq<PositionedRectangle>) -> Seq<Rectangle> {
    placed.map_values(|p: PositionedRectangle| spec_strip(p))
}

/// Conflict is symmetric: inflating either footprint by the gap tests the
/// same pair of intervals on each axis.
pub proof fn lemma_intersect_symmetric(
    a: PositionedRectangle, b: PositionedRectangle, spacing: int,
)
    ensures
        spec_intersect(a, b, spacing) == spec_intersect(b, a, spacing),
{
}

pub fn is_within_boundaries(subject: &PositionedRectangle, max_width: i32, max_length: i32)
    -> (r: bool)
    requires
        anchor_in_range(subject.top_left_vertex),
        0 <= subject.width <= MAX_COORDINATE,
        0 <= subject.length <= MAX_COORDINATE,
    ensures
        r == spec_within_boundaries(*subject, max_width as int, max_length as int),
{
    let subject_vertices = subject.get_vertices();

    subject_vertices.bottom_rigth_vertex.pos_x <= max_width
        && subject_vertices.bottom_rigth_vertex.pos_y <= max_length
        && subject_vertices.top_left_vertex.pos_x >= 0
        && subject_vertices.top_left_vertex.pos_y >= 0
}

pub fn intersect(first: &PositionedRectangle, second: &PositionedRectangle, spacing: i32)
    -> (r: bool)
    requires
        anchor_in_range(first.top_left_vertex),
        anchor_in_range(second.top_left_vertex),
        0 <= first.width <= MAX_COORDINATE,
        0 <= first.length <= MAX_COORDINATE,
        0 <= second.width <= MAX_COORDINATE,
        0 <= second.length <= MAX_COORDINATE,
        0 <= spacing <= MAX_COORDINATE,
    ensures
        r == spec_intersect(*first, *second, spacing as int),
{
    let first_vertices = first.get_vertices();
    let second_vertices = second.get_vertices();

    // top side of the second rectangle is above the bottom side of the first
    second_vertices.top_left_vertex.pos_y < first_vertices.bottom_rigth_vertex.pos_y + spacing
        // right side of the second rectangle is right of the first's left side
        && second_vertices.bottom_rigth_vertex.pos_x + spacing > first_vertices.top_left_vertex.pos_x
        // bottom side of the second rectangle is below the top side of the first
        && second_vertices.bottom_rigth_vertex.pos_y + spacing > first_vertices.top_left_vertex.pos_y
        // left side of the second rectangle is left of the first's right side
        && second_vertices.top_left_vertex.pos_x < first_vertices.bottom_rigth_vertex.pos_x + spacing
}

/// Every member of `list` has dimensions within the accepted range and an
/// anchor in the working band.
pub open spec fn spec_list_in_band(list: Seq<PositionedRectangle>) -> bool {
    forall|i: int| 0 <= i < list.len() ==> {
        &&& anchor_in_range((#[trigger] list[i]).top_left_vertex)
        &&& 0 <= list[i].width <= MAX_COORDINATE
        &&& 0 <= list[i].length <= MAX_COORDINATE
    }
}

pub fn subject_intesect_with_positioned_rectangles_list(
    subject: &PositionedRectangle, positioned_rectangles_list: &Vec<PositionedRectangle>,
    spacing: i32,
) -> (r: bool)
    requires
        anchor_in_range(subject.top_left_vertex),
        0 <= subject.width <= MAX_COORDINATE,
        0 <= subject.length <= MAX_COORDINATE,
        spec_list_in_band(positioned_rectangles_list@),
        0 <= spacing <= MAX_COORDINATE,
    ensures
        r == spec_intersects_any(*subject, positioned_rectangles_list@, spacing as int),
{
    let n = positioned_rectangles_list.len();
    for i in 0..n
        invariant
            n == positioned_rectangles_list.len(),
            anchor_in_range(subject.top_left_vertex),
            0 <= subject.width <= MAX_COORDINATE,
            0 <= subject.length <= MAX_COORDINATE,
            spec_list_in_band(positioned_rectangles_list@),
            0 <= spacing <= MAX_COORDINATE,
            forall|j: int| 0 <= j < i
                ==> !spec_intersect(*subject, #[trigger] positioned_rectangles_list@[j],
                    spacing as int),
    {
        if intersect(subject, &positioned_rectangles_list[i], spacing) {
            return true;
        }
    }
    false
}

pub fn get_vertex_index_in_list(
    vertex: &Vertex, possible_vertex_for_rectangle_list: &Vec<Vertex>,
) -> (r: Option<usize>)
    ensures
        match r {
            Some(i) => {
                &&& 0 <= i < possible_vertex_for_rectangle_list@.len()
                &&& possible_vertex_for_rectangle_list@[i as int] == *vertex
                &&& forall|j: int| 0 <= j < i
                    ==> possible_vertex_for_rectangle_list@[j] != *vertex
            },
            None => forall|j: int| 0 <= j < possible_vertex_for_rectangle_list@.len()
                ==> possible_vertex_for_rectangle_list@[j] != *vertex,
        },
{
    let n = possible_vertex_for_rectangle_list.len();
    for i in 0..n
        invariant
            n == possible_vertex_for_rectangle_list.len(),
            forall|j: int| 0 <= j < i ==> possible_vertex_for_rectangle_list@[j] != *vertex,
    {
        if possible_vertex_for_rectangle_list[i].equals(vertex) {
            return Some(i);
        }
    }
    None
}

pub fn get_vertices_for_positioning(positioned_rectangle: PositionedRectangle, spacing: i32)
    -> (r: Vec<Vertex>)
    requires
        anchor_in_range(positioned_rectangle.top_left_vertex),
        0 <= positioned_rectangle.width <= MAX_COORDINATE,
        0 <= positioned_rectangle.length <= MAX_COORDINATE,
        0 <= spacing <= MAX_COORDINATE,
    ensures
        r@ == spec_vertices_for_positioning(positioned_rectangle, spacing as int),
{
    let positioned_rectangle_vertices = positioned_rectangle.get_vertices();
    let mut vertices_to_be_added: Vec<Vertex> = Vec::new();
    vertices_to_be_added.push(Vertex {
        pos_x: positioned_rectangle_vertices.bottom_left_vertex.pos_x,
        pos_y: positioned_rectangle_vertices.bottom_left_vertex.pos_y + spacing,
    });
    vertices_to_be_added.push(Vertex {
        pos_x: positioned_rectangle_vertices.top_rigth_vertex.pos_x + spacing,
        pos_y: positioned_rectangle_vertices.top_rigth_vertex.pos_y,
    });
    proof {
        assert(vertices_to_be_added@
            =~= spec_vertices_for_positioning(positioned_rectangle, spacing as int));
    }
    vertices_to_be_added
}

pub fn create_available_vertices_for_positioning(
    positioned_rectangle: &PositionedRectangle, spacing: i32,
) -> (r: Vec<Vertex>)
    requires
        anchor_in_range(positioned_rectangle.top_left_vertex),
        0 <= positioned_rectangle.width <= MAX_COORDINATE,
        0 <= positioned_rectangle.length <= MAX_COORDINATE,
        0 <= spacing <= MAX_COORDINATE,
    ensures
        r@ == spec_available_vertices(*positioned_rectangle, spacing as int),
{
    let mut vertex_list: Vec<Vertex> = Vec::new();

    let PositionedRectangleVertices { top_rigth_vertex, bottom_left_vertex, .. } =
        positioned_rectangle.get_vertices();

    vertex_list.push(Vertex {
        pos_x: top_rigth_vertex.pos_x + spacing,
        pos_y: top_rigth_vertex.pos_y,
    });
    vertex_list.push(Vertex {
        pos_x: bottom_left_vertex.pos_x,
        pos_y: bottom_left_vertex.pos_y + spacing,
    });
    proof {
        assert(vertex_list@ =~= spec_available_vertices(*positioned_rectangle, spacing as int));
    }
    vertex_list
}

pub fn create_available_vertices_for_prohibited_area(prohibited_area: &PositionedRectangle)
    -> (r: Vec<Vertex>)
    requires
        anchor_in_range(prohibited_area.top_left_vertex),
        0 <= prohibited_area.width <= MAX_COORDINATE,
        0 <= prohibited_area.length <= MAX_COORDINATE,
    ensures
        r@ == spec_zone_vertices(*prohibited_area),
{
    let mut vertex_list: Vec<Vertex> = Vec::new();
    let mut exit_vertices = create_available_vertices_for_positioning(prohibited_area, 0);
    vertex_list.append(&mut exit_vertices);

    // anchor at the top of the area's column, against wasting the strip above
    vertex_list.push(Vertex { pos_x: prohibited_area.top_left_vertex.pos_x, pos_y: 0 });

    // anchor at the left of the area's row, against wasting the strip beside
    vertex_list.push(Vertex { pos_x: 0, pos_y: prohibited_area.top_left_vertex.pos_y });

    proof {
        assert(vertex_list@ =~= spec_zone_vertices(*prohibited_area));
    }
    vertex_list
}

pub fn rectangle_wider_and_longer_comparator(first: &Rectangle, second: &Rectangle)
    -> (r: Ordering)
    ensures
        r == (if second.width > first.width
            || (second.width == first.width && second.length > first.length) {
            Ordering::Greater
        } else if first.width == second.width && first.length == second.length {
            Ordering::Equal
        } else {
            Ordering::Less
        }),
{
    if first.width < second.width
        || (first.width == second.width && first.length < second.length) {
        Ordering::Greater
    } else if first.width == second.width && first.length == second.length {
        Ordering::Equal
    } else {
        Ordering::Less
    }
}

pub fn vertex_closest_to_top_and_left_comparator(first: &Vertex, second: &Vertex) -> (r: Ordering)
    ensures
        r == (if <Vertex as SweepOrder<TopLeftSweep>>::before(*first, *second) {
            Ordering::Less
        } else if first.pos_y == second.pos_y && first.pos_x == second.pos_x {
            Ordering::Equal
        } else {
            Ordering::Greater
        }),
{
    if first.pos_y < second.pos_y || (first.pos_y == second.pos_y && first.pos_x < second.pos_x) {
        Ordering::Less
    } else if first.pos_y == second.pos_y && first.pos_x == second.pos_x {
        Ordering::Equal
    } else {
        Ordering::Greater
    }
}

pub fn rectangle_maximum_y_comparator(first: &PositionedRectangle, second: &PositionedRectangle)
    -> (r: Ordering)
    requires
        anchor_in_range(first.top_left_vertex),
        anchor_in_range(second.top_left_vertex),
        0 <= first.length <= MAX_COORDINATE,
        0 <= second.length <= MAX_COORDINATE,
    ensures
        r == (if bottom_edge(*first) < bottom_edge(*second) {
            Ordering::Less
        } else if bottom_edge(*first) == bottom_edge(*second) {
            Ordering::Equal
        } else {
            Ordering::Greater
        }),
{
    let first_bottom = first.top_left_vertex.pos_y + first.length;
    let second_bottom = second.top_left_vertex.pos_y + second.length;
    if first_bottom < second_bottom {
        Ordering::Less
    } else if first_bottom == second_bottom {
        Ordering::Equal
    } else {
        Ordering::Greater
    }
}

pub fn find_position_for_rectangle(
    rectangle: &Rectangle, max_width: i32, max_length: i32, spacing: i32,
    positioned_rectangles_list: &Vec<PositionedRectangle>,
    possible_vertex_for_rectangle_list: &Vec<Vertex>,
    prohibited_area_list: &Vec<PositionedRectangle>,
) -> (r: Option<PositionedRectangle>)
    requires
        0 <= rectangle.width <= MAX_COORDINATE,
        0 <= rectangle.length <= MAX_COORDINATE,
        0 <= spacing <= MAX_COORDINATE,
        spec_list_in_band(positioned_rectangles_list@),
        spec_list_in_band(prohibited_area_list@),
        forall|i: int| 0 <= i < possible_vertex_for_rectangle_list@.len()
            ==> anchor_in_range(#[trigger] possible_vertex_for_rectangle_list@[i]),
    ensures
        ({
            let fit = spec_first_fit_from(
                *rectangle, possible_vertex_for_rectangle_list@, 0,
                positioned_rectangles_list@, prohibited_area_list@,
                spacing as int, max_width as int, max_length as int,
            );
            match r {
                Some(pr) => {
                    &&& fit is Some
                    &&& {
                        let i = fit->Some_0;
                        &&& 0 <= i < possible_vertex_for_rectangle_list@.len()
                        &&& pr == spec_place_at(*rectangle,
                            possible_vertex_for_rectangle_list@[i])
                        &&& spec_candidate_ok(*rectangle,
                            possible_vertex_for_rectangle_list@[i],
                            positioned_rectangles_list@, prohibited_area_list@,
                            spacing as int, max_width as int, max_length as int)
                        &&& forall|j: int| 0 <= j < i ==> !spec_candidate_ok(*rectangle,
                            #[trigger] possible_vertex_for_rectangle_list@[j],
                            positioned_rectangles_list@, prohibited_area_list@,
                            spacing as int, max_width as int, max_length as int)
                    }
                },
                None => {
                    &&& fit is None
                    &&& forall|j: int| 0 <= j < possible_vertex_for_rectangle_list@.len()
                        ==> !spec_candidate_ok(*rectangle,
                            #[trigger] possible_vertex_for_rectangle_list@[j],
                            positioned_rectangles_list@, prohibited_area_list@,
                            spacing as int, max_width as int, max_length as int)
                },
            }
        }),
{
    let ghost pool = possible_vertex_for_rectangle_list@;
    let ghost placed = positioned_rectangles_list@;
    let ghost zones = prohibited_area_list@;
    let n = possible_vertex_for_rectangle_list.len();
    for i in 0..n
        invariant
            n == possible_vertex_for_rectangle_list.len(),
            pool == possible_vertex_for_rectangle_list@,
            placed == positioned_rectangles_list@,
            zones == prohibited_area_list@,
            0 <= rectangle.width <= MAX_COORDINATE,
            0 <= rectangle.length <= MAX_COORDINATE,
            0 <= spacing <= MAX_COORDINATE,
            spec_list_in_band(placed),
            spec_list_in_band(zones),
            forall|j: int| 0 <= j < pool.len() ==> anchor_in_range(#[trigger] pool[j]),
            forall|j: int| 0 <= j < i ==> !spec_candidate_ok(*rectangle, #[trigger] pool[j],
                placed, zones, spacing as int, max_width as int, max_length as int),
            spec_first_fit_from(*rectangle, pool, 0, placed, zones,
                spacing as int, max_width as int, max_length as int)
                == spec_first_fit_from(*rectangle, pool, i as int, placed, zones,
                    spacing as int, max_width as int, max_length as int),
    {
        let vertex = possible_vertex_for_rectangle_list[i];
        let subject = PositionedRectangle {
            id: rectangle.id,
            width: rectangle.width,
            length: rectangle.length,
            top_left_vertex: vertex,
        };

        let fits = is_within_boundaries(&subject, max_width, max_length)
            && !subject_intesect_with_positioned_rectangles_list(
                &subject, positioned_rectangles_list, spacing)
            && !subject_intesect_with_positioned_rectangles_list(
                &subject, prohibited_area_list, 0);

        if fits {
            proof {
                assert(spec_candidate_ok(*rectangle, pool[i as int], placed, zones,
                    spacing as int, max_width as int, max_length as int));
            }
            return Some(subject);
        }
    }
    None
}

/// What the main placement pass hands back: the surviving anchor pool, the
/// pieces that found no place, the placements, and the length consumed.
pub struct MainRectangleOrganized {
    pub possible_vertex_for_rectangle_list: Vec<Vertex>,
    pub unused_rectangles_list: Vec<Rectangle>,
    pub positioned_rectangles_list: Vec<PositionedRectangle>,
    pub length_used: i32,
}

/// Every piece of `s` has positive in-range dimensions.
pub open spec fn spec_rects_in_range(s: Seq<Rectangle>) -> bool {
    forall|i: int| 0 <= i < s.len() ==> rectangle_in_range(#[trigger] s[i])
}

/// Every member of `s` has positive in-range dimensions and an in-range anchor.
pub open spec fn spec_zones_in_range(s: Seq<PositionedRectangle>) -> bool {
    forall|i: int| 0 <= i < s.len() ==> positioned_in_range(#[trigger] s[i])
}

/// Every anchor of `s` lies in the working band.
pub open spec fn spec_pool_in_band(s: Seq<Vertex>) -> bool {
    forall|i: int| 0 <= i < s.len() ==> anchor_in_range(#[trigger] s[i])
}

proof fn lemma_sorted_vertices_in_band(s: Seq<Vertex>)
    requires
        spec_pool_in_band(s),
    ensures
        spec_pool_in_band(sort_ordered::<TopLeftSweep, Vertex>(s)),
{
    let t = sort_ordered::<TopLeftSweep, Vertex>(s);
    crate::sorting::lemma_sort_ordered_multiset::<TopLeftSweep, Vertex>(s);
    s.to_multiset_ensures();
    t.to_multiset_ensures();
    assert forall|i: int| 0 <= i < t.len() implies anchor_in_range(#[trigger] t[i]) by {
        assert(t.contains(t[i]));
        assert(s.to_multiset().count(t[i]) > 0);
        assert(s.contains(t[i]));
    }
}

proof fn lemma_sorted_rects_in_range(s: Seq<Rectangle>)
    requires
        spec_rects_in_range(s),
    ensures
        spec_rects_in_range(sort_ordered::<WidthLengthSweep, Rectangle>(s)),
{
    let t = sort_ordered::<WidthLengthSweep, Rectangle>(s);
    crate::sorting::lemma_sort_ordered_multiset::<WidthLengthSweep, Rectangle>(s);
    s.to_multiset_ensures();
    t.to_multiset_ensures();
    assert forall|i: int| 0 <= i < t.len() implies rectangle_in_range(#[trigger] t[i]) by {
        assert(t.contains(t[i]));
        assert(s.to_multiset().count(t[i]) > 0);
        assert(s.contains(t[i]));
    }
}

proof fn lemma_initial_pool_in_band(zones: Seq<PositionedRectangle>)
    requires
        spec_zones_in_range(zones),
    ensures
        spec_pool_in_band(spec_initial_pool(zones)),
    decreases zones.len(),
{
    if zones.len() > 0 {
        lemma_initial_pool_in_band(zones.drop_last());
    }
}

pub fn organize_main_rectangles(
    max_length: i32, spacing: i32, max_width: i32, rectangles_list: &Vec<Rectangle>,
    prohibited_area_list: &Vec<PositionedRectangle>,
) -> (r: MainRectangleOrganized)
    requires
        0 <= spacing <= MAX_COORDINATE,
        0 < max_width <= MAX_COORDINATE,
        0 < max_length <= MAX_COORDINATE,
        spec_rects_in_range(rectangles_list@),
        spec_zones_in_range(prohibited_area_list@),
    ensures
        ({
            let sorted = sort_ordered::<WidthLengthSweep, Rectangle>(rectangles_list@);
            let st = spec_place_fold(sorted, sorted.len() as int, prohibited_area_list@,
                spacing as int, max_width as int, max_length as int);
            &&& r.possible_vertex_for_rectangle_list@ == st.pool
            &&& r.positioned_rectangles_list@ == st.placed
            &&& r.unused_rectangles_list@ == st.unused
            &&& r.length_used == spec_length_used(st.placed)
        }),
        spec_no_conflicts(r.positioned_rectangles_list@, spacing as int),
        spec_clear_of_zones(r.positioned_rectangles_list@, prohibited_area_list@),
        spec_all_within(r.positioned_rectangles_list@, max_width as int, max_length as int),
        spec_list_in_band(r.positioned_rectangles_list@),
        spec_pool_in_band(r.possible_vertex_for_rectangle_list@),
        spec_strip_all(r.positioned_rectangles_list@).to_multiset()
            .add(r.unused_rectangles_list@.to_multiset())
            == rectangles_list@.to_multiset(),
        0 <= r.length_used <= max_length,
{
    let ghost zones = prohibited_area_list@;
    let mut possible_vertex_for_rectangle_list: Vec<Vertex> = Vec::new();
    let mut unused_rectangles_list: Vec<Rectangle> = Vec::new();
    let mut positioned_rectangles_list: Vec<PositionedRectangle> = Vec::new();

    // a first anchor at the origin
    possible_vertex_for_rectangle_list.push(Vertex { pos_x: 0, pos_y: 0 });

    // the anchors every prohibited area contributes
    let zones_len = prohibited_area_list.len();
    for z in 0..zones_len
        invariant
            zones_len == prohibited_area_list.len(),
            zones == prohibited_area_list@,
            spec_zones_in_range(zones),
            possible_vertex_for_rectangle_list@
                == spec_initial_pool(zones.subrange(0, z as int)),
    {
        let mut zone_vertices =
            create_available_vertices_for_prohibited_area(&prohibited_area_list[z]);
        possible_vertex_for_rectangle_list.append(&mut zone_vertices);
        proof {
            assert(zones.subrange(0, z + 1).drop_last() =~= zones.subrange(0, z as int));
            assert(zones.subrange(0, z + 1).last() == zones[z as int]);
        }
    }
    proof {
        assert(zones.subrange(0, zones_len as int) =~= zones);
        lemma_initial_pool_in_band(zones);
    }

    proof {
        let stripped0 = spec_strip_all(positioned_rectangles_list@);
        assert(stripped0 =~= Seq::<Rectangle>::empty());
        Seq::<Rectangle>::empty().to_multiset_ensures();
        assert(Seq::<Rectangle>::empty().to_multiset() =~= Multiset::<Rectangle>::empty());
    }

    let mut rectangles_list_sorted = copy_vec(rectangles_list);
    sort_by_order::<WidthLengthSweep, Rectangle>(&mut rectangles_list_sorted);
    proof {
        lemma_sorted_rects_in_range(rectangles_list@);
    }
    let ghost sorted = rectangles_list_sorted@;
    proof {
        assert(sorted.subrange(0, 0) =~= Seq::<Rectangle>::empty());
        assert(unused_rectangles_list@ =~= Seq::<Rectangle>::empty());
        assert(Multiset::<Rectangle>::empty().add(Multiset::<Rectangle>::empty())
            =~= Multiset::<Rectangle>::empty());
    }

    let n = rectangles_list_sorted.len();
    for k in 0..n
        invariant
            n == rectangles_list_sorted.len(),
            rectangles_list_sorted@ == sorted,
            sorted == sort_ordered::<WidthLengthSweep, Rectangle>(rectangles_list@),
            zones == prohibited_area_list@,
            spec_rects_in_range(sorted),
            spec_zones_in_range(zones),
            0 <= spacing <= MAX_COORDINATE,
            0 < max_width <= MAX_COORDINATE,
            0 < max_length <= MAX_COORDINATE,
            ({
                let st = spec_place_fold(sorted, k as int, zones,
                    spacing as int, max_width as int, max_length as int);
                &&& possible_vertex_for_rectangle_list@ == st.pool
                &&& positioned_rectangles_list@ == st.placed
                &&& unused_rectangles_list@ == st.unused
            }),
            spec_pool_in_band(possible_vertex_for_rectangle_list@),
            spec_list_in_band(positioned_rectangles_list@),
            spec_all_within(positioned_rectangles_list@, max_width as int, max_length as int),
            spec_no_conflicts(positioned_rectangles_list@, spacing as int),
            spec_clear_of_zones(positioned_rectangles_list@, zones),
            spec_strip_all(positioned_rectangles_list@).to_multiset()
                .add(unused_rectangles_list@.to_multiset())
                == sorted.subrange(0, k as int).to_multiset(),
    {
        proof {
            assert forall|i: int| 0 <= i < zones.len()
                implies {
                    &&& anchor_in_range((#[trigger] zones[i]).top_left_vertex)
                    &&& 0 <= zones[i].width <= MAX_COORDINATE
                    &&& 0 <= zones[i].length <= MAX_COORDINATE
                } by {
                assert(positioned_in_range(zones[i]));
            }
        }
        let ghost st_k = spec_place_fold(sorted, k as int, zones,
            spacing as int, max_width as int, max_length as int);
        sort_by_order::<TopLeftSweep, Vertex>(&mut possible_vertex_for_rectangle_list);
        proof {
            lemma_sorted_vertices_in_band(st_k.pool);
        }
        let ghost spool = possible_vertex_for_rectangle_list@;

        let rectangle = rectangles_list_sorted[k];

        let positioned_rectangle_option = find_position_for_rectangle(
            &rectangle, max_width, max_length, spacing,
            &positioned_rectangles_list, &possible_vertex_for_rectangle_list,
            prohibited_area_list,
        );

        let ghost prev_placed = positioned_rectangles_list@;
        let ghost prev_unused = unused_rectangles_list@;

        match positioned_rectangle_option {
            Some(positioned_rectangle) => {
                let ghost fit = spec_first_fit_from(rectangle, spool, 0, prev_placed, zones,
                    spacing as int, max_width as int, max_length as int);
                let ghost fi = fit->Some_0;

                positioned_rectangles_list.push(positioned_rectangle);
                match get_vertex_index_in_list(
                    &positioned_rectangle.top_left_vertex,
                    &possible_vertex_for_rectangle_list,
                ) {
                    Some(used_vertex_index) => {
                        proof {
                            // an earlier anchor with the same coordinates would
                            // have been the first fit itself
                            if (used_vertex_index as int) < fi {
                                assert(spool[used_vertex_index as int] == spool[fi]);
                                assert(spec_candidate_ok(rectangle,
                                    spool[used_vertex_index as int], prev_placed, zones,
                                    spacing as int, max_width as int, max_length as int));
                                assert(false);
                            }
                            if (used_vertex_index as int) > fi {
                                assert(spool[fi] == positioned_rectangle.top_left_vertex);
                                assert(false);
                            }
                            assert(used_vertex_index as int == fi);
                        }
                        possible_vertex_for_rectangle_list.remove(used_vertex_index);
                    },
                    None => {
                        proof {
                            assert(spool[fi] == positioned_rectangle.top_left_vertex);
                            assert(false);
                        }
                    },
                }
                let mut new_vertices =
                    get_vertices_for_positioning(positioned_rectangle, spacing);
                possible_vertex_for_rectangle_list.append(&mut new_vertices);

                proof {
                    let st_next = spec_place_fold(sorted, k + 1, zones,
                        spacing as int, max_width as int, max_length as int);
                    assert(st_next == spec_place_step(st_k, sorted[k as int], zones,
                        spacing as int, max_width as int, max_length as int));
                    assert(possible_vertex_for_rectangle_list@ =~= st_next.pool);
                    assert(positioned_rectangles_list@ =~= st_next.placed);
                    assert(unused_rectangles_list@ =~= st_next.unused);

                    // the fresh anchors stay inside the working band
                    assert(spec_within_boundaries(positioned_rectangle,
                        max_width as int, max_length as int));
                    assert forall|i: int| 0 <= i < possible_vertex_for_rectangle_list@.len()
                        implies anchor_in_range(
                            #[trigger] possible_vertex_for_rectangle_list@[i]) by {
                        if i >= possible_vertex_for_rectangle_list@.len() - 2 {
                            assert(bottom_edge(positioned_rectangle) + spacing
                                <= 2 * (MAX_COORDINATE as int));
                            assert(right_edge(positioned_rectangle) + spacing
                                <= 2 * (MAX_COORDINATE as int));
                        } else {
                            assert(possible_vertex_for_rectangle_list@[i]
                                == spool.remove(fi)[i]);
                        }
                    }

                    // the new placement conflicts with nothing already down
                    assert forall|i: int, j: int|
                        0 <= i < positioned_rectangles_list@.len()
                            && 0 <= j < positioned_rectangles_list@.len() && i != j
                        implies !spec_intersect(#[trigger] positioned_rectangles_list@[i],
                            #[trigger] positioned_rectangles_list@[j], spacing as int) by {
                        let m = prev_placed.len() as int;
                        if i == m {
                            assert(!spec_intersect(positioned_rectangle, prev_placed[j],
                                spacing as int));
                        } else if j == m {
                            assert(!spec_intersect(positioned_rectangle, prev_placed[i],
                                spacing as int));
                            lemma_intersect_symmetric(positioned_rectangle, prev_placed[i],
                                spacing as int);
                        }
                    }

                    // conservation: the placement carries exactly this piece
                    let stripped = spec_strip_all(positioned_rectangles_list@);
                    assert(stripped =~= spec_strip_all(prev_placed).push(rectangle));
                    spec_strip_all(prev_placed).to_multiset_ensures();
                    prev_unused.to_multiset_ensures();
                    sorted.subrange(0, k as int).to_multiset_ensures();
                    assert(sorted.subrange(0, k + 1)
                        =~= sorted.subrange(0, k as int).push(sorted[k as int]));
                    assert(stripped.to_multiset().add(unused_rectangles_list@.to_multiset())
                        =~= sorted.subrange(0, k + 1).to_multiset());
                }
            },
            None => {
                unused_rectangles_list.push(rectangle);
                proof {
                    let st_next = spec_place_fold(sorted, k + 1, zones,
                        spacing as int, max_width as int, max_length as int);
                    assert(st_next == spec_place_step(st_k, sorted[k as int], zones,
                        spacing as int, max_width as int, max_length as int));
                    assert(possible_vertex_for_rectangle_list@ =~= st_next.pool);
                    assert(unused_rectangles_list@ =~= st_next.unused);

                    spec_strip_all(prev_placed).to_multiset_ensures();
                    prev_unused.to_multiset_ensures();
                    sorted.subrange(0, k as int).to_multiset_ensures();
                    assert(sorted.subrange(0, k + 1)
                        =~= sorted.subrange(0, k as int).push(sorted[k as int]));
                    assert(spec_strip_all(positioned_rectangles_list@).to_multiset()
                        .add(unused_rectangles_list@.to_multiset())
                        =~= sorted.subrange(0, k + 1).to_multiset());
                }
            },
        };
    }

    proof {
        assert(sorted.subrange(0, n as int) =~= sorted);
        crate::sorting::lemma_sort_ordered_multiset::<WidthLengthSweep, Rectangle>(
            rectangles_list@);
    }

    let mut length_used: i32 = 0;
    let placed_len = positioned_rectangles_list.len();
    for p in 0..placed_len
        invariant
            placed_len == positioned_rectangles_list.len(),
            spec_list_in_band(positioned_rectangles_list@),
            spec_all_within(positioned_rectangles_list@,
                max_width as int, max_length as int),
            0 < max_length <= MAX_COORDINATE,
            length_used == spec_length_used(positioned_rectangles_list@.subrange(0, p as int)),
            0 <= length_used <= max_length,
    {
        let rect = &positioned_rectangles_list[p];
        let bottom = rect.top_left_vertex.pos_y + rect.length;
        if bottom > length_used {
            length_used = bottom;
        }
        proof {
            assert(positioned_rectangles_list@.subrange(0, p + 1).drop_last()
                =~= positioned_rectangles_list@.subrange(0, p as int));
        }
    }
    proof {
        assert(positioned_rectangles_list@.subrange(0, placed_len as int)
            =~= positioned_rectangles_list@);
    }

    MainRectangleOrganized {
        possible_vertex_for_rectangle_list,
        unused_rectangles_list,
        positioned_rectangles_list,
        length_used,
    }
}

/// Number of distinct anchor points in the box `[0, max_width] x [0, length_used]`.
pub open spec fn spec_area_slots(max_width: int, length_used: int) -> int {
    (max_width + 1) * (length_used + 1)
}

/// A box position folded into one integer, row by row.
pub open spec fn spec_encode_position(v: Vertex, max_width: int) -> int {
    v.pos_y * (max_width + 1) + v.pos_x
}

/// The filler fits at this anchor: inside the length already consumed by the
/// main pieces, and clear of pieces (spacing), prohibited areas (no gap) and
/// fillers already down (spacing).
pub open spec fn spec_filler_ok(
    subject: PositionedRectangle, max_width: int, length_used: int,
    placed: Seq<PositionedRectangle>, zones: Seq<PositionedRectangle>,
    fillers: Seq<PositionedRectangle>, spacing: int,
) -> bool {
    &&& spec_within_boundaries(subject, max_width, length_used)
    &&& !spec_intersects_any(subject, placed, spacing)
    &&& !spec_intersects_any(subject, zones, 0)
    &&& !spec_intersects_any(subject, fillers, spacing)
}

/// The filler pass, one anchor per step: re-sort the pool, pop the first
/// anchor, and either place a filler there (opening its two exit anchors) or
/// discard the anchor. The recursion is bounded by `fuel`; the implementation
/// proves its fuel large enough that the pool always empties first.
pub open spec fn spec_showcase_steps(
    showcase: Rectangle, pool: Seq<Vertex>, fillers: Seq<PositionedRectangle>,
    placed: Seq<PositionedRectangle>, zones: Seq<PositionedRectangle>,
    spacing: int, max_width: int, length_used: int, fuel: nat,
) -> Seq<PositionedRectangle>
    decreases fuel,
{
    if fuel == 0 || pool.len() == 0 {
        fillers
    } else {
        let sorted = sort_ordered::<TopLeftSweep, Vertex>(pool);
        let subject = spec_place_at(showcase, sorted[0]);
        if spec_filler_ok(subject, max_width, length_used, placed, zones, fillers, spacing) {
            spec_showcase_steps(
                showcase,
                sorted.remove(0) + spec_available_vertices(subject, spacing),
                fillers.push(subject),
                placed, zones, spacing, max_width, length_used, (fuel - 1) as nat,
            )
        } else {
            spec_showcase_steps(
                showcase, sorted.remove(0), fillers,
                placed, zones, spacing, max_width, length_used, (fuel - 1) as nat,
            )
        }
    }
}

/// Fuel that outlasts the pool: every placement occupies a fresh box
/// position and opens two anchors, so the pass runs at most this long.
pub open spec fn spec_showcase_fuel(pool_len: int, max_width: int, length_used: int) -> nat {
    let raw = pool_len + 2 * spec_area_slots(max_width, length_used);
    if raw >= 0 {
        raw as nat
    } else {
        0
    }
}

/// What the filler pass returns for a given pool and surroundings.
pub open spec fn spec_showcase_result(
    showcase: Rectangle, pool: Seq<Vertex>, placed: Seq<PositionedRectangle>,
    zones: Seq<PositionedRectangle>, spacing: int, max_width: int, length_used: int,
) -> Seq<PositionedRectangle> {
    let sorted = sort_ordered::<TopLeftSweep, Vertex>(pool);
    spec_showcase_steps(
        showcase, sorted, Seq::<PositionedRectangle>::empty(), placed, zones,
        spacing, max_width, length_used,
        spec_showcase_fuel(sorted.len() as int, max_width, length_used),
    )
}

pub fn organize_showcase_rectangles(
    showcase: Rectangle, spacing: i32, max_width: i32,
    prohibited_area_list: &Vec<PositionedRectangle>,
    possible_vertex_for_rectangle_list: &Vec<Vertex>,
    positioned_rectangles_list: &Vec<PositionedRectangle>,
    length_used: i32,
) -> (r: Vec<PositionedRectangle>)
    requires
        rectangle_in_range(showcase),
        0 <= spacing <= MAX_COORDINATE,
        0 < max_width <= MAX_COORDINATE,
        0 <= length_used <= MAX_COORDINATE,
        spec_zones_in_range(prohibited_area_list@),
        spec_pool_in_band(possible_vertex_for_rectangle_list@),
        spec_list_in_band(positioned_rectangles_list@),
    ensures
        r@ == spec_showcase_result(
            showcase, possible_vertex_for_rectangle_list@, positioned_rectangles_list@,
            prohibited_area_list@, spacing as int, max_width as int, length_used as int,
        ),
        spec_all_within(r@, max_width as int, length_used as int),
        spec_no_conflicts(r@, spacing as int),
        spec_clear_of_zones(r@, prohibited_area_list@),
        forall|i: int| 0 <= i < r@.len()
            ==> !spec_intersects_any(#[trigger] r@[i], positioned_rectangles_list@,
                spacing as int),
        forall|i: int| 0 <= i < r@.len()
            ==> #[trigger] r@[i] == spec_place_at(showcase, r@[i].top_left_vertex),
        spec_list_in_band(r@),
{
    let ghost placed = positioned_rectangles_list@;
    let ghost zones = prohibited_area_list@;
    let ghost mw = max_width as int;
    let ghost lu = length_used as int;
    let ghost sp = spacing as int;
    let ghost slots = spec_area_slots(mw, lu);

    let mut possible_vertex_for_rectangle_list_sorted =
        copy_vec(possible_vertex_for_rectangle_list);
    sort_by_order::<TopLeftSweep, Vertex>(&mut possible_vertex_for_rectangle_list_sorted);
    proof {
        lemma_sorted_vertices_in_band(possible_vertex_for_rectangle_list@);
        crate::sorting::lemma_sort_ordered_len::<TopLeftSweep, Vertex>(
            possible_vertex_for_rectangle_list@);
    }

    let mut positioned_showcase_list: Vec<PositionedRectangle> = Vec::new();

    let ghost target = spec_showcase_result(showcase, possible_vertex_for_rectangle_list@,
        placed, zones, sp, mw, lu);
    let ghost mut used: Set<int> = Set::empty();
    let ghost mut fuel_left: int =
        possible_vertex_for_rectangle_list_sorted@.len() + 2 * slots;

    proof {
        assert(slots >= 0) by (nonlinear_arith)
            requires mw >= 0 && lu >= 0 && slots == (mw + 1) * (lu + 1);
        vstd::set_lib::lemma_int_range(0, slots);
    }

    while possible_vertex_for_rectangle_list_sorted.len() > 0
        invariant
            rectangle_in_range(showcase),
            0 <= spacing <= MAX_COORDINATE,
            0 < max_width <= MAX_COORDINATE,
            0 <= length_used <= MAX_COORDINATE,
            mw == max_width as int,
            lu == length_used as int,
            sp == spacing as int,
            slots == spec_area_slots(mw, lu),
            slots >= 0,
            placed == positioned_rectangles_list@,
            zones == prohibited_area_list@,
            spec_list_in_band(placed),
            spec_zones_in_range(zones),
            spec_pool_in_band(possible_vertex_for_rectangle_list_sorted@),
            spec_list_in_band(positioned_showcase_list@),
            spec_all_within(positioned_showcase_list@, mw, lu),
            spec_no_conflicts(positioned_showcase_list@, sp),
            spec_clear_of_zones(positioned_showcase_list@, zones),
            forall|i: int| 0 <= i < positioned_showcase_list@.len()
                ==> !spec_intersects_any(#[trigger] positioned_showcase_list@[i], placed, sp),
            forall|i: int| 0 <= i < positioned_showcase_list@.len()
                ==> #[trigger] positioned_showcase_list@[i]
                    == spec_place_at(showcase, positioned_showcase_list@[i].top_left_vertex),
            used.finite(),
            used.len() == positioned_showcase_list@.len(),
            used.len() <= slots,
            forall|k: int| #[trigger] used.contains(k) ==> 0 <= k < slots,
            forall|k: int| #[trigger] used.contains(k)
                ==> exists|i: int| 0 <= i < positioned_showcase_list@.len()
                    && spec_encode_position(
                        (#[trigger] positioned_showcase_list@[i]).top_left_vertex, mw) == k,
            forall|i: int| 0 <= i < positioned_showcase_list@.len()
                ==> used.contains(spec_encode_position(
                    (#[trigger] positioned_showcase_list@[i]).top_left_vertex, mw)),
            fuel_left == possible_vertex_for_rectangle_list_sorted@.len()
                + 2 * (slots - used.len()),
            fuel_left >= 0,
            spec_showcase_steps(showcase, possible_vertex_for_rectangle_list_sorted@,
                positioned_showcase_list@, placed, zones, sp, mw, lu, fuel_left as nat)
                == target,
        decreases fuel_left,
    {
        let ghost pool_entry = possible_vertex_for_rectangle_list_sorted@;
        let ghost fillers_entry = positioned_showcase_list@;
        let ghost fuel_entry = fuel_left;

        sort_by_order::<TopLeftSweep, Vertex>(&mut possible_vertex_for_rectangle_list_sorted);
        proof {
            lemma_sorted_vertices_in_band(pool_entry);
            crate::sorting::lemma_sort_ordered_len::<TopLeftSweep, Vertex>(pool_entry);
        }
        let ghost spool = possible_vertex_for_rectangle_list_sorted@;

        let vertex = possible_vertex_for_rectangle_list_sorted[0];
        let subject = PositionedRectangle {
            id: showcase.id,
            width: showcase.width,
            length: showcase.length,
            top_left_vertex: vertex,
        };

        let fits = is_within_boundaries(&subject, max_width, length_used)
            && !subject_intesect_with_positioned_rectangles_list(
                &subject, positioned_rectangles_list, spacing)
            && !subject_intesect_with_positioned_rectangles_list(
                &subject, prohibited_area_list, 0)
            && !subject_intesect_with_positioned_rectangles_list(
                &subject, &positioned_showcase_list, spacing);

        if fits {
            possible_vertex_for_rectangle_list_sorted.remove(0);
            let mut new_vertices = create_available_vertices_for_positioning(&subject, spacing);
            possible_vertex_for_rectangle_list_sorted.append(&mut new_vertices);
            positioned_showcase_list.push(subject);

            proof {
                let px = subject.top_left_vertex.pos_x as int;
                let py = subject.top_left_vertex.pos_y as int;
                let key = spec_encode_position(subject.top_left_vertex, mw);
                assert(0 <= px <= mw && 0 <= py <= lu);
                assert(0 <= key < slots) by (nonlinear_arith)
                    requires
                        0 <= px <= mw,
                        0 <= py <= lu,
                        key == py * (mw + 1) + px,
                        slots == (mw + 1) * (lu + 1);

                // the consumed position is fresh: an old filler at the same
                // encoded position would share the anchor and conflict
                assert(!used.contains(key)) by {
                    if used.contains(key) {
                        let i = choose|i: int| 0 <= i < fillers_entry.len()
                            && spec_encode_position(fillers_entry[i].top_left_vertex, mw)
                                == key;
                        let qx = fillers_entry[i].top_left_vertex.pos_x as int;
                        let qy = fillers_entry[i].top_left_vertex.pos_y as int;
                        assert(spec_within_boundaries(fillers_entry[i], mw, lu));
                        assert(fillers_entry[i]
                            == spec_place_at(showcase, fillers_entry[i].top_left_vertex));
                        assert(0 <= qx <= mw && 0 <= qy <= lu);
                        assert(qx == px && qy == py) by (nonlinear_arith)
                            requires
                                0 <= px <= mw,
                                0 <= qx <= mw,
                                py * (mw + 1) + px == qy * (mw + 1) + qx;
                        assert(spec_intersect(subject, fillers_entry[i], sp));
                        assert(false);
                    }
                }

                let ghost used_entry = used;
                used = used.insert(key);
                fuel_left = fuel_left - 1;

                assert forall|k: int| #[trigger] used.contains(k)
                    implies exists|i: int| 0 <= i < positioned_showcase_list@.len()
                        && spec_encode_position(
                            (#[trigger] positioned_showcase_list@[i]).top_left_vertex, mw)
                            == k by {
                    let m = fillers_entry.len() as int;
                    if k == key {
                        assert(positioned_showcase_list@[m] == subject);
                        assert(spec_encode_position(
                            positioned_showcase_list@[m].top_left_vertex, mw) == k);
                    } else {
                        assert(used_entry.contains(k));
                        let i = choose|i: int| 0 <= i < fillers_entry.len()
                            && spec_encode_position(
                                (#[trigger] fillers_entry[i]).top_left_vertex, mw) == k;
                        assert(positioned_showcase_list@[i] == fillers_entry[i]);
                        assert(spec_encode_position(
                            positioned_showcase_list@[i].top_left_vertex, mw) == k);
                    }
                }

                vstd::set_lib::lemma_int_range(0, slots);
                assert(used.subset_of(vstd::set_lib::set_int_range(0, slots)));
                vstd::set_lib::lemma_len_subset(used,
                    vstd::set_lib::set_int_range(0, slots));

                // the loop's state advances exactly one spec step
                assert(spec_showcase_steps(showcase, pool_entry, fillers_entry,
                    placed, zones, sp, mw, lu, fuel_entry as nat) == target);
                assert(possible_vertex_for_rectangle_list_sorted@
                    =~= spool.remove(0) + spec_available_vertices(subject, sp));
                assert(spec_filler_ok(subject, mw, lu, placed, zones, fillers_entry, sp));
                assert(spec_showcase_steps(showcase,
                    possible_vertex_for_rectangle_list_sorted@,
                    positioned_showcase_list@, placed, zones, sp, mw, lu,
                    fuel_left as nat) == target);

                // the new placement conflicts with no earlier filler
                assert forall|i: int, j: int|
                    0 <= i < positioned_showcase_list@.len()
                        && 0 <= j < positioned_showcase_list@.len() && i != j
                    implies !spec_intersect(#[trigger] positioned_showcase_list@[i],
                        #[trigger] positioned_showcase_list@[j], sp) by {
                    let m = fillers_entry.len() as int;
                    if i == m {
                        assert(!spec_intersect(subject, fillers_entry[j], sp));
                    } else if j == m {
                        assert(!spec_intersect(subject, fillers_entry[i], sp));
                        lemma_intersect_symmetric(subject, fillers_entry[i], sp);
                    }
                }

                // the two fresh anchors stay in the working band
                assert forall|i: int|
                    0 <= i < possible_vertex_for_rectangle_list_sorted@.len()
                    implies anchor_in_range(
                        #[trigger] possible_vertex_for_rectangle_list_sorted@[i]) by {
                    if i >= possible_vertex_for_rectangle_list_sorted@.len() - 2 {
                        assert(right_edge(subject) + sp <= 2 * (MAX_COORDINATE as int));
                        assert(bottom_edge(subject) + sp <= 2 * (MAX_COORDINATE as int));
                    } else {
                        assert(possible_vertex_for_rectangle_list_sorted@[i]
                            == spool.remove(0)[i]);
                    }
                }
            }
        } else {
            possible_vertex_for_rectangle_list_sorted.remove(0);
            proof {
                fuel_left = fuel_left - 1;
                assert(spec_showcase_steps(showcase, pool_entry, fillers_entry,
                    placed, zones, sp, mw, lu, fuel_entry as nat) == target);
                assert(!spec_filler_ok(spec_place_at(showcase, spool[0]), mw, lu,
                    placed, zones, fillers_entry, sp));
                assert(possible_vertex_for_rectangle_list_sorted@ =~= spool.remove(0));
                assert(spec_showcase_steps(showcase,
                    possible_vertex_for_rectangle_list_sorted@,
                    positioned_showcase_list@, placed, zones, sp, mw, lu,
                    fuel_left as nat) == target);
            }
        }
    }

    positioned_showcase_list
}

/// Gap configured between pieces, or zero when none is set.
pub open spec fn spec_spacing(input: CutDispositionInput) -> int {
    match input.spacing {
        Some(s) => s as int,
        None => 0,
    }
}

/// The length the layout may use: the defined length when set, else the
/// maximum length.
pub open spec fn spec_effective_length(input: CutDispositionInput) -> int {
    match input.defined_length {
        Some(d) => d as int,
        None => input.max_length as int,
    }
}

/// The input as the pipeline assumes it: validated positive configuration
/// and every dimension and coordinate within the accepted range.
pub open spec fn spec_input_valid(input: CutDispositionInput) -> bool {
    &&& (input.spacing is Some ==> 0 < input.spacing->Some_0 <= MAX_COORDINATE)
    &&& 0 < input.max_length <= MAX_COORDINATE
    &&& (input.defined_length is Some ==> 0 < input.defined_length->Some_0 <= MAX_COORDINATE)
    &&& 0 < input.defined_width <= MAX_COORDINATE
    &&& spec_rects_in_range(input.rectangles_list@)
    &&& spec_zones_in_range(input.prohibited_area_list@)
    &&& (input.showcase is Some ==> rectangle_in_range(input.showcase->Some_0))
}

/// Area of one placed rectangle.
pub open spec fn spec_area(p: PositionedRectangle) -> int {
    p.width * p.length
}

/// Total area of a list of placed rectangles.
pub open spec fn spec_used_area(s: Seq<PositionedRectangle>) -> int
    decreases s.len(),
{
    if s.len() == 0 {
        0
    } else {
        spec_used_area(s.drop_last()) + spec_area(s.last())
    }
}

/// The placements of the main pass on a validated input.
pub open spec fn spec_main_state(input: CutDispositionInput) -> PlacementState {
    spec_place_fold(
        sort_ordered::<WidthLengthSweep, Rectangle>(input.rectangles_list@),
        sort_ordered::<WidthLengthSweep, Rectangle>(input.rectangles_list@).len() as int,
        input.prohibited_area_list@,
        spec_spacing(input), input.defined_width as int, spec_effective_length(input),
    )
}

/// The fillers the showcase pass adds on a validated input.
pub open spec fn spec_showcase_of_input(input: CutDispositionInput) -> Seq<PositionedRectangle> {
    let st = spec_main_state(input);
    match input.showcase {
        Some(showcase) => spec_showcase_result(
            showcase, st.pool, st.placed, input.prohibited_area_list@,
            spec_spacing(input), input.defined_width as int, spec_length_used(st.placed),
        ),
        None => Seq::<PositionedRectangle>::empty(),
    }
}

/// `r` is the output the pipeline's specification assigns to `input`: every
/// field is pinned as a function of the input alone.
pub open spec fn spec_is_layout_of(r: CutDispositionOutput, input: CutDispositionInput) -> bool {
    let st = spec_main_state(input);
    let fillers = spec_showcase_of_input(input);
    &&& r.positioned_rectangles_list@ == st.placed
    &&& r.showcase_rectangles_located_list@ == fillers
    &&& r.unused_rectangles_list@ == st.unused
    &&& r.prohibited_area_list@ == input.prohibited_area_list@
    &&& r.length_used == spec_length_used(st.placed)
    &&& r.max_length == input.max_length
    &&& r.defined_length == input.defined_length
    &&& r.defined_width == input.defined_width
    &&& r.total_area == (input.defined_width as int) * spec_effective_length(input)
    &&& r.used_area == spec_used_area(st.placed) + spec_used_area(fillers)
}

fn sum_areas(v: &Vec<PositionedRectangle>) -> (r: i128)
    requires
        spec_list_in_band(v@),
    ensures
        r == spec_used_area(v@),
        0 <= r <= 0x10000000000000000 * 10000000000000000,
{
    let ghost bound: int = 10000000000000000;
    proof {
        assert(bound == (MAX_COORDINATE as int) * (MAX_COORDINATE as int)) by (nonlinear_arith)
            requires bound == 10000000000000000;
    }
    let mut total: i128 = 0;
    let n = v.len();
    for i in 0..n
        invariant
            n == v.len(),
            spec_list_in_band(v@),
            total == spec_used_area(v@.subrange(0, i as int)),
            0 <= total <= i * bound,
            bound == (MAX_COORDINATE as int) * (MAX_COORDINATE as int),
            bound == 10000000000000000,
    {
        let rect = &v[i];
        proof {
            assert(0 <= (rect.width as int) * (rect.length as int) <= bound)
                by (nonlinear_arith)
                requires
                    0 <= rect.width <= MAX_COORDINATE,
                    0 <= rect.length <= MAX_COORDINATE,
                    bound == (MAX_COORDINATE as int) * (MAX_COORDINATE as int);
        }
        let area: i128 = (rect.width as i128) * (rect.length as i128);
        proof {
            assert(i * bound + bound == (i + 1) * bound) by (nonlinear_arith);
            assert((i + 1) * bound <= 0x10000000000000000 * bound) by (nonlinear_arith)
                requires 0 <= i + 1 <= 0x10000000000000000 && bound > 0;
        }
        total = total + area;
        proof {
            assert(v@.subrange(0, i + 1).drop_last() =~= v@.subrange(0, i as int));
        }
    }
    proof {
        assert(v@.subrange(0, n as int) =~= v@);
        assert(n * bound <= 0x10000000000000000 * bound) by (nonlinear_arith)
            requires 0 <= n <= 0x10000000000000000 && bound > 0;
    }
    total
}

/// The whole layout pipeline on a validated snapshot: main placement, then
/// filler placement, then the totals of the run.
pub fn organized_disposition(cut_disposition_input: &CutDispositionInput)
    -> (r: CutDispositionOutput)
    requires
        spec_input_valid(*cut_disposition_input),
    ensures
        spec_is_layout_of(r, *cut_disposition_input),
        ({
            let input = *cut_disposition_input;
            let st = spec_main_state(input);
            let fillers = spec_showcase_of_input(input);
            let eff = spec_effective_length(input);
            let sp = spec_spacing(input);
            let mw = input.defined_width as int;
            // the laws of the layout
            &&& spec_no_conflicts(r.positioned_rectangles_list@, sp)
            &&& spec_clear_of_zones(r.positioned_rectangles_list@, input.prohibited_area_list@)
            &&& spec_all_within(r.positioned_rectangles_list@, mw, eff)
            &&& spec_no_conflicts(r.showcase_rectangles_located_list@, sp)
            &&& spec_clear_of_zones(r.showcase_rectangles_located_list@,
                input.prohibited_area_list@)
            &&& spec_all_within(r.showcase_rectangles_located_list@, mw, eff)
            &&& (forall|i: int| 0 <= i < fillers.len()
                ==> !spec_intersects_any(#[trigger] fillers[i], st.placed, sp))
            &&& spec_strip_all(r.positioned_rectangles_list@).to_multiset()
                .add(r.unused_rectangles_list@.to_multiset())
                == input.rectangles_list@.to_multiset()
            &&& 0 <= r.length_used <= eff
        }),
{
    let ghost input = *cut_disposition_input;
    let max_length = match cut_disposition_input.defined_length {
        Some(defined_length) => defined_length,
        None => cut_disposition_input.max_length,
    };

    let spacing = match cut_disposition_input.spacing {
        Some(s) => s,
        None => 0,
    };

    let max_width = cut_disposition_input.defined_width;

    let main_rectangle_organized = organize_main_rectangles(
        max_length, spacing, max_width,
        &cut_disposition_input.rectangles_list,
        &cut_disposition_input.prohibited_area_list,
    );

    let mut positioned_showcase_list: Vec<PositionedRectangle> = Vec::new();

    match &cut_disposition_input.showcase {
        Some(showcase) => {
            let mut fillers = organize_showcase_rectangles(
                *showcase, spacing, max_width,
                &cut_disposition_input.prohibited_area_list,
                &main_rectangle_organized.possible_vertex_for_rectangle_list,
                &main_rectangle_organized.positioned_rectangles_list,
                main_rectangle_organized.length_used,
            );
            positioned_showcase_list.append(&mut fillers);
            proof {
                assert(positioned_showcase_list@ =~= spec_showcase_of_input(input));
            }
        },
        None => {
            proof {
                assert(positioned_showcase_list@ =~= spec_showcase_of_input(input));
            }
        },
    }

    proof {
        assert(0 <= (max_width as int) * (max_length as int)
            <= (MAX_COORDINATE as int) * (MAX_COORDINATE as int)) by (nonlinear_arith)
            requires
                0 < max_width <= MAX_COORDINATE,
                0 < max_length <= MAX_COORDINATE;
    }
    let total_area: i128 = (max_width as i128) * (max_length as i128);
    let used_area: i128 = sum_areas(&main_rectangle_organized.positioned_rectangles_list)
        + sum_areas(&positioned_showcase_list);

    proof {
        let st = spec_main_state(input);
        let eff = spec_effective_length(input);
        assert forall|i: int| 0 <= i < positioned_showcase_list@.len()
            implies spec_within_boundaries(#[trigger] positioned_showcase_list@[i],
                input.defined_width as int, eff) by {
            assert(spec_within_boundaries(positioned_showcase_list@[i],
                input.defined_width as int, spec_length_used(st.placed)));
        }
    }

    CutDispositionOutput {
        positioned_rectangles_list: main_rectangle_organized.positioned_rectangles_list,
        showcase_rectangles_located_list: positioned_showcase_list,
        unused_rectangles_list: main_rectangle_organized.unused_rectangles_list,
        prohibited_area_list: copy_vec(&cut_disposition_input.prohibited_area_list),
        length_used: main_rectangle_organized.length_used,
        total_area,
        used_area,
        max_length: cut_disposition_input.max_length,
        defined_length: cut_disposition_input.defined_length,
        defined_width: cut_disposition_input.defined_width,
    }
}

/// No-overlap law of a finished layout: among all entries drawn from the
/// placed pieces and the prohibited areas together, no two conflict — two
/// pieces under the configured spacing, and any pair that involves a
/// prohibited area with no gap required. The prohibited areas are assumed
/// clear of one another: the engine lays pieces around them but cannot move
/// them apart.
pub proof fn lemma_no_overlap(
    placed: Seq<PositionedRectangle>, zones: Seq<PositionedRectangle>, spacing: int,
)
    requires
        spec_no_conflicts(placed, spacing),
        spec_clear_of_zones(placed, zones),
        spec_no_conflicts(zones, 0),
    ensures
        forall|i: int, j: int| 0 <= i < j < (placed + zones).len()
            ==> !spec_intersect(#[trigger] (placed + zones)[i], #[trigger] (placed + zones)[j],
                if j < placed.len() { spacing } else { 0 }),
{
    let u = placed + zones;
    assert forall|i: int, j: int| 0 <= i < j < u.len()
        implies !spec_intersect(u[i], u[j], if j < placed.len() { spacing } else { 0 }) by {
        let m = placed.len() as int;
        if j < m {
            assert(u[i] == placed[i] && u[j] == placed[j]);
        } else if i < m {
            assert(u[i] == placed[i] && u[j] == zones[j - m]);
        } else {
            assert(u[i] == zones[i - m] && u[j] == zones[j - m]);
        }
    }
}

/// The ids of `s` are pairwise distinct.
pub open spec fn spec_ids_distinct(s: Seq<Rectangle>) -> bool {
    forall|i: int, j: int| 0 <= i < j < s.len() ==> (#[trigger] s[i]).id != (#[trigger] s[j]).id
}

/// A value standing at two positions of a sequence counts at least twice in
/// its multiset.
proof fn lemma_count_at_two_positions<A>(s: Seq<A>, i: int, j: int)
    requires
        0 <= i < j < s.len(),
        s[i] == s[j],
    ensures
        s.to_multiset().count(s[i]) >= 2,
{
    broadcast use vstd::multiset::group_multiset_axioms;

    s.to_multiset_ensures();
    let t = s.remove(j);
    s.remove_ensures(j);
    t.to_multiset_ensures();
    assert(t[i] == s[i]);
    assert(t.contains(s[i]));
    assert(t.to_multiset().count(s[i]) > 0);
    assert(t.to_multiset() =~= s.to_multiset().remove(s[j]));
    assert(s.contains(s[j]));
    assert(s.to_multiset().count(s[j]) > 0);
    assert(s.to_multiset().count(s[i]) == t.to_multiset().count(s[i]) + 1);
}

/// A value counted at least twice stands at two distinct positions.
proof fn lemma_two_positions_from_count<A>(s: Seq<A>, a: A)
    requires
        s.to_multiset().count(a) >= 2,
    ensures
        exists|p: int, q: int| 0 <= p < q < s.len() && (#[trigger] s[p]) == a && (#[trigger] s[q]) == a,
{
    broadcast use vstd::multiset::group_multiset_axioms;

    s.to_multiset_ensures();
    assert(s.contains(a));
    let p = choose|p: int| 0 <= p < s.len() && s[p] == a;
    let t = s.remove(p);
    s.remove_ensures(p);
    t.to_multiset_ensures();
    assert(t.to_multiset() =~= s.to_multiset().remove(s[p]));
    assert(t.to_multiset().count(a) >= 1);
    assert(t.contains(a));
    let q0 = choose|q0: int| 0 <= q0 < t.len() && t[q0] == a;
    if q0 < p {
        assert(s[q0] == t[q0]);
        assert(0 <= q0 < p < s.len() && s[q0] == a && s[p] == a);
    } else {
        assert(s[q0 + 1] == t[q0]);
        assert(0 <= p < q0 + 1 < s.len() && s[p] == a && s[q0 + 1] == a);
    }
}

/// Some member of `s` carries `id`.
pub open spec fn spec_placed_has_id(s: Seq<PositionedRectangle>, id: u32) -> bool {
    exists|i: int| 0 <= i < s.len() && (#[trigger] s[i]).id == id
}

/// Some piece of `s` carries `id`.
pub open spec fn spec_rects_have_id(s: Seq<Rectangle>, id: u32) -> bool {
    exists|i: int| 0 <= i < s.len() && (#[trigger] s[i]).id == id
}

/// Conservation law: when the input pieces carry pairwise distinct ids, the
/// ids of the placed pieces together with the ids of the unplaced pieces are
/// exactly the input ids, and no id appears twice across the two lists.
pub proof fn lemma_conservation_ids(
    placed: Seq<PositionedRectangle>, unused: Seq<Rectangle>, input: Seq<Rectangle>,
)
    requires
        spec_strip_all(placed).to_multiset().add(unused.to_multiset()) == input.to_multiset(),
        spec_ids_distinct(input),
    ensures
        forall|id: u32| (spec_placed_has_id(placed, id) || spec_rects_have_id(unused, id))
            <==> #[trigger] spec_rects_have_id(input, id),
        forall|i: int, j: int| 0 <= i < j < placed.len()
            ==> (#[trigger] placed[i]).id != (#[trigger] placed[j]).id,
        forall|i: int, j: int| 0 <= i < j < unused.len()
            ==> (#[trigger] unused[i]).id != (#[trigger] unused[j]).id,
        forall|i: int, j: int| 0 <= i < placed.len() && 0 <= j < unused.len()
            ==> (#[trigger] placed[i]).id != (#[trigger] unused[j]).id,
{
    broadcast use vstd::multiset::group_multiset_axioms;

    let stripped = spec_strip_all(placed);
    let c = stripped + unused;
    vstd::seq_lib::lemma_multiset_commutative(stripped, unused);
    assert(c.to_multiset() == input.to_multiset());
    c.to_multiset_ensures();
    input.to_multiset_ensures();

    // membership carries over in both directions, and ids with it
    assert forall|id: u32| (spec_placed_has_id(placed, id) || spec_rects_have_id(unused, id))
        <==> #[trigger] spec_rects_have_id(input, id) by {
        let m = placed.len() as int;
        if spec_placed_has_id(placed, id) {
            let i = choose|i: int| 0 <= i < placed.len() && (#[trigger] placed[i]).id == id;
            assert(c[i] == spec_strip(placed[i]));
            assert(c.contains(c[i]));
            assert(c.to_multiset().count(c[i]) > 0);
            assert(input.to_multiset().count(c[i]) > 0);
            assert(input.contains(c[i]));
            let k = choose|k: int| 0 <= k < input.len() && input[k] == c[i];
            assert(spec_rects_have_id(input, id));
        }
        if spec_rects_have_id(unused, id) {
            let i = choose|i: int| 0 <= i < unused.len() && (#[trigger] unused[i]).id == id;
            assert(c[m + i] == unused[i]);
            assert(c.contains(c[m + i]));
            assert(c.to_multiset().count(c[m + i]) > 0);
            assert(input.to_multiset().count(c[m + i]) > 0);
            assert(input.contains(c[m + i]));
            let k = choose|k: int| 0 <= k < input.len() && input[k] == c[m + i];
            assert(spec_rects_have_id(input, id));
        }
        if spec_rects_have_id(input, id) {
            let i = choose|i: int| 0 <= i < input.len() && (#[trigger] input[i]).id == id;
            assert(input.contains(input[i]));
            assert(input.to_multiset().count(input[i]) > 0);
            assert(c.to_multiset().count(input[i]) > 0);
            assert(c.contains(input[i]));
            let k = choose|k: int| 0 <= k < c.len() && c[k] == input[i];
            if k < m {
                assert(placed[k].id == id);
                assert(spec_placed_has_id(placed, id));
            } else {
                assert(unused[k - m].id == id);
                assert(spec_rects_have_id(unused, id));
            }
        }
    }

    // two entries of the combined run with one id would force a duplicate in
    // the input
    assert forall|p: int, q: int| 0 <= p < q < c.len() implies c[p].id != c[q].id by {
        if c[p].id == c[q].id {
            if c[p] == c[q] {
                lemma_count_at_two_positions(c, p, q);
                assert(input.to_multiset().count(c[p]) >= 2);
                lemma_two_positions_from_count(input, c[p]);
                let (x, y) = choose|x: int, y: int| 0 <= x < y < input.len()
                    && (#[trigger] input[x]) == c[p] && (#[trigger] input[y]) == c[p];
                assert(input[x].id == input[y].id);
                assert(false);
            } else {
                assert(c.contains(c[p]) && c.contains(c[q]));
                assert(c.to_multiset().count(c[p]) > 0 && c.to_multiset().count(c[q]) > 0);
                assert(input.to_multiset().count(c[p]) > 0
                    && input.to_multiset().count(c[q]) > 0);
                assert(input.contains(c[p]) && input.contains(c[q]));
                let x = choose|x: int| 0 <= x < input.len() && input[x] == c[p];
                let y = choose|y: int| 0 <= y < input.len() && input[y] == c[q];
                assert(x != y);
                assert(input[x].id == input[y].id);
                assert(false);
            }
        }
    }

    let m = placed.len() as int;
    assert forall|i: int, j: int| 0 <= i < j < placed.len()
        implies (#[trigger] placed[i]).id != (#[trigger] placed[j]).id by {
        assert(c[i] == spec_strip(placed[i]) && c[j] == spec_strip(placed[j]));
    }
    assert forall|i: int, j: int| 0 <= i < j < unused.len()
        implies (#[trigger] unused[i]).id != (#[trigger] unused[j]).id by {
        assert(c[m + i] == unused[i] && c[m + j] == unused[j]);
    }
    assert forall|i: int, j: int| 0 <= i < placed.len() && 0 <= j < unused.len()
        implies (#[trigger] placed[i]).id != (#[trigger] unused[j]).id by {
        assert(c[i] == spec_strip(placed[i]) && c[m + j] == unused[j]);
    }
}

/// Determinism law: the pipeline's output is a function of its input alone.
/// Two outputs that both meet the pipeline's specification for one input
/// agree in every field.
pub proof fn lemma_layout_deterministic(
    input: CutDispositionInput, r1: CutDispositionOutput, r2: CutDispositionOutput,
)
    requires
        spec_is_layout_of(r1, input),
        spec_is_layout_of(r2, input),
    ensures
        r1.positioned_rectangles_list@ == r2.positioned_rectangles_list@,
        r1.showcase_rectangles_located_list@ == r2.showcase_rectangles_located_list@,
        r1.unused_rectangles_list@ == r2.unused_rectangles_list@,
        r1.prohibited_area_list@ == r2.prohibited_area_list@,
        r1.length_used == r2.length_used,
        r1.total_area == r2.total_area,
        r1.used_area == r2.used_area,
        r1.max_length == r2.max_length,
        r1.defined_length == r2.defined_length,
        r1.defined_width == r2.defined_width,
{
}

} // verus!
