//! Data model of the cutting layout: vertices, pieces, positioned pieces,
//! and the mutable store of pieces edited before a layout run.
//!
//! Coordinate system: X grows rightward (width axis), Y grows downward
//! (length axis); a positioned rectangle is anchored at its top-left corner.

use vstd::prelude::*;

use crate::app_error::{AppError, DEFAULT_ERROR_CODE};
use crate::utils::copy_vec;

verus! {

/// Bound on every dimension and coordinate the layout engine accepts.
/// Sums of a handful of in-range values then stay well inside `i32`.
pub const MAX_COORDINATE: i32 = 100_000_000;

#[derive(Clone, Copy, Debug, PartialEq, Eq, Structural)]
pub struct Vertex {
    pub pos_x: i32,
    pub pos_y: i32,
}

impl Vertex {
    pub fn equals(&self, vertex: &Vertex) -> (r: bool)
        ensures
            r == (self.pos_x == vertex.pos_x && self.pos_y == vertex.pos_y),
    {
        self.pos_x == vertex.pos_x && self.pos_y == vertex.pos_y
    }
}

#[derive(Clone, Copy, Debug, PartialEq, Eq, Structural)]
pub struct Rectangle {
    pub id: u32,
    pub width: i32,
    pub length: i32,
}

impl Rectangle {
    pub fn equals(&self, rectangle: &Rectangle) -> (r: bool)
        ensures
            r == (self.id == rectangle.id && self.width == rectangle.width
                && self.length == rectangle.length),
    {
        self.id == rectangle.id && self.width == rectangle.width
            && self.length == rectangle.length
    }

    pub fn is_valid(&self) -> (r: bool)
        ensures
            r == (self.width > 0 && self.length > 0),
    {
        self.width > 0 && self.length > 0
    }
}

#[derive(Clone, Copy, Debug, PartialEq, Eq, Structural)]
pub struct PositionedRectangle {
    pub id: u32,
    pub width: i32,
    pub length: i32,
    pub top_left_vertex: Vertex,
}

/// X coordinate of the right edge of `r`.
pub open spec fn right_edge(r: PositionedRectangle) -> int {
    r.top_left_vertex.pos_x + r.width
}

/// Y coordinate of the bottom edge of `r`.
pub open spec fn bottom_edge(r: PositionedRectangle) -> int {
    r.top_left_vertex.pos_y + r.length
}

/// The coordinates of `v` are within the accepted range.
pub open spec fn vertex_in_range(v: Vertex) -> bool {
    &&& -(MAX_COORDINATE as int) <= v.pos_x <= MAX_COORDINATE as int
    &&& -(MAX_COORDINATE as int) <= v.pos_y <= MAX_COORDINATE as int
}

/// Both dimensions of `r` are positive and within the accepted range.
pub open spec fn rectangle_in_range(r: Rectangle) -> bool {
    &&& 0 < r.width <= MAX_COORDINATE as int
    &&& 0 < r.length <= MAX_COORDINATE as int
}

/// Dimensions positive and in range, anchor in range.
pub open spec fn positioned_in_range(r: PositionedRectangle) -> bool {
    &&& 0 < r.width <= MAX_COORDINATE as int
    &&& 0 < r.length <= MAX_COORDINATE as int
    &&& vertex_in_range(r.top_left_vertex)
}

/// Anchor vertices generated during placement stay inside this wider band.
pub open spec fn anchor_in_range(v: Vertex) -> bool {
    &&& -(MAX_COORDINATE as int) <= v.pos_x <= 3 * (MAX_COORDINATE as int)
    &&& -(MAX_COORDINATE as int) <= v.pos_y <= 3 * (MAX_COORDINATE as int)
}

impl PositionedRectangle {
    pub fn new_from_rectangle_and_vertex(rectangle: &Rectangle, top_left_vertex: &Vertex)
        -> (r: PositionedRectangle)
        ensures
            r.id == rectangle.id,
            r.width == rectangle.width,
            r.length == rectangle.length,
            r.top_left_vertex == *top_left_vertex,
    {
        PositionedRectangle {
            id: rectangle.id,
            width: rectangle.width,
            length: rectangle.length,
            top_left_vertex: *top_left_vertex,
        }
    }

    pub fn get_vertices(&self) -> (r: PositionedRectangleVertices)
        requires
            i32::MIN <= self.top_left_vertex.pos_x + self.width <= i32::MAX,
            i32::MIN <= self.top_left_vertex.pos_y + self.length <= i32::MAX,
        ensures
            r.top_left_vertex == self.top_left_vertex,
            r.top_rigth_vertex == (Vertex {
                pos_x: (self.top_left_vertex.pos_x + self.width) as i32,
                pos_y: self.top_left_vertex.pos_y,
            }),
            r.bottom_left_vertex == (Vertex {
                pos_x: self.top_left_vertex.pos_x,
                pos_y: (self.top_left_vertex.pos_y + self.length) as i32,
            }),
            r.bottom_rigth_vertex == (Vertex {
                pos_x: (self.top_left_vertex.pos_x + self.width) as i32,
                pos_y: (self.top_left_vertex.pos_y + self.length) as i32,
            }),
    {
        PositionedRectangleVertices {
            top_left_vertex: self.top_left_vertex,
            top_rigth_vertex: Vertex {
                pos_x: self.top_left_vertex.pos_x + self.width,
                pos_y: self.top_left_vertex.pos_y,
            },
            bottom_left_vertex: Vertex {
                pos_x: self.top_left_vertex.pos_x,
                pos_y: self.top_left_vertex.pos_y + self.length,
            },
            bottom_rigth_vertex: Vertex {
                pos_x: self.top_left_vertex.pos_x + self.width,
                pos_y: self.top_left_vertex.pos_y + self.length,
            },
        }
    }

    pub fn equals(&self, positioned_rectangle: &PositionedRectangle) -> (r: bool)
        ensures
            r == (self.id == positioned_rectangle.id
                && self.width == positioned_rectangle.width
                && self.length == positioned_rectangle.length
                && self.top_left_vertex == positioned_rectangle.top_left_vertex),
    {
        self.id == positioned_rectangle.id
            && self.width == positioned_rectangle.width
            && self.length == positioned_rectangle.length
            && self.top_left_vertex.equals(&positioned_rectangle.top_left_vertex)
    }

    pub fn is_valid(&self) -> (r: bool)
        ensures
            r == (self.width > 0 && self.length > 0),
    {
        self.width > 0 && self.length > 0
    }
}

#[derive(Clone, Copy, Debug, PartialEq, Eq, Structural)]
pub struct PositionedRectangleVertices {
    pub top_left_vertex: Vertex,
    pub top_rigth_vertex: Vertex,
    pub bottom_left_vertex: Vertex,
    pub bottom_rigth_vertex: Vertex,
}

/// A straight segment between two vertices.
#[derive(Clone, Copy, Debug, PartialEq, Eq, Structural)]
pub struct Line {
    pub first_vertex: Vertex,
    pub last_vertex: Vertex,
}

/// A piece, a repeatable showcase shape, or a fixed prohibited area.
#[derive(Clone, Copy, Debug, PartialEq, Eq, Structural)]
pub enum RectangleType {
    Piece(Rectangle),
    Showcase(Rectangle),
    ProhibitedArea(PositionedRectangle),
}

#[derive(Clone, Debug, PartialEq)]
pub struct ConfigCutDispositionInput {
    pub spacing: Option<i32>,
    pub max_length: i32,
    pub defined_length: Option<i32>,
    pub defined_width: i32,
}

#[derive(Clone, Debug, PartialEq)]
pub struct CutDispositionInput {
    pub rectangles_list: Vec<Rectangle>,
    pub prohibited_area_list: Vec<PositionedRectangle>,
    pub showcase: Option<Rectangle>,
    pub spacing: Option<i32>,
    pub max_length: i32,
    pub defined_length: Option<i32>,
    pub defined_width: i32,
}

#[derive(Clone, Debug, PartialEq)]
pub struct CutDispositionOutput {
    pub positioned_rectangles_list: Vec<PositionedRectangle>,
    pub showcase_rectangles_located_list: Vec<PositionedRectangle>,
    pub unused_rectangles_list: Vec<Rectangle>,
    pub prohibited_area_list: Vec<PositionedRectangle>,
    pub length_used: i32,
    pub total_area: i128,
    pub used_area: i128,
    pub max_length: i32,
    pub defined_length: Option<i32>,
    pub defined_width: i32,
}

/// `i` is the position of the first rectangle in `s` that carries `id`.
pub open spec fn is_first_with_id(s: Seq<Rectangle>, id: u32, i: int) -> bool {
    &&& 0 <= i < s.len()
    &&& s[i].id == id
    &&& forall|j: int| 0 <= j < i ==> s[j].id != id
}

/// `i` is the position of the first positioned rectangle in `s` carrying `id`.
pub open spec fn is_first_positioned_with_id(s: Seq<PositionedRectangle>, id: u32, i: int) -> bool {
    &&& 0 <= i < s.len()
    &&& s[i].id == id
    &&& forall|j: int| 0 <= j < i ==> s[j].id != id
}

/// The store of pieces, prohibited areas and configuration edited between
/// layout runs.
#[derive(Clone, Debug, PartialEq)]
pub struct CutDispositionState {
    pub spacing: Option<i32>,
    pub max_length: i32,
    pub defined_length: Option<i32>,
    pub defined_width: i32,
    pub rectangles_list: Vec<Rectangle>,
    pub prohibited_area_list: Vec<PositionedRectangle>,
    pub showcase: Option<Rectangle>,
    pub last_id: u32,
}

/// `a` and `b` agree on everything but the list of pieces.
pub open spec fn same_but_rectangles(a: CutDispositionState, b: CutDispositionState) -> bool {
    &&& a.spacing == b.spacing
    &&& a.max_length == b.max_length
    &&& a.defined_length == b.defined_length
    &&& a.defined_width == b.defined_width
    &&& a.prohibited_area_list == b.prohibited_area_list
    &&& a.showcase == b.showcase
    &&& a.last_id == b.last_id
}

/// `a` and `b` agree on everything but the showcase shape.
pub open spec fn same_but_showcase(a: CutDispositionState, b: CutDispositionState) -> bool {
    &&& a.spacing == b.spacing
    &&& a.max_length == b.max_length
    &&& a.defined_length == b.defined_length
    &&& a.defined_width == b.defined_width
    &&& a.rectangles_list == b.rectangles_list
    &&& a.prohibited_area_list == b.prohibited_area_list
    &&& a.last_id == b.last_id
}

/// `a` and `b` agree on everything but the list of prohibited areas.
pub open spec fn same_but_prohibited(a: CutDispositionState, b: CutDispositionState) -> bool {
    &&& a.spacing == b.spacing
    &&& a.max_length == b.max_length
    &&& a.defined_length == b.defined_length
    &&& a.defined_width == b.defined_width
    &&& a.rectangles_list == b.rectangles_list
    &&& a.showcase == b.showcase
    &&& a.last_id == b.last_id
}

impl CutDispositionState {
    pub fn new() -> (r: CutDispositionState)
        ensures
            r.rectangles_list@ == Seq::<Rectangle>::empty(),
            r.prohibited_area_list@ == Seq::<PositionedRectangle>::empty(),
            r.showcase is None,
            r.last_id == 0,
            r.spacing is None,
            r.max_length == 0,
            r.defined_length is None,
            r.defined_width == 0,
    {
        CutDispositionState {
            rectangles_list: Vec::<Rectangle>::new(),
            prohibited_area_list: Vec::<PositionedRectangle>::new(),
            showcase: None,
            last_id: 0,
            spacing: None,
            max_length: 0,
            defined_length: None,
            defined_width: 0,
        }
    }

    pub fn reset(&mut self)
        ensures
            final(self).rectangles_list@ == Seq::<Rectangle>::empty(),
            final(self).prohibited_area_list@ == Seq::<PositionedRectangle>::empty(),
            final(self).showcase is None,
            final(self).last_id == 0,
            final(self).spacing is None,
            final(self).max_length == 0,
            final(self).defined_length is None,
            final(self).defined_width == 0,
    {
        self.rectangles_list = Vec::<Rectangle>::new();
        self.prohibited_area_list = Vec::<PositionedRectangle>::new();
        self.showcase = None;
        self.last_id = 0;
        self.spacing = None;
        self.max_length = 0;
        self.defined_length = None;
        self.defined_width = 0;
    }

    fn generate_next_id(&mut self) -> (r: u32)
        requires
            old(self).last_id < u32::MAX,
        ensures
            final(self).last_id == old(self).last_id + 1,
            r == final(self).last_id,
            final(self).rectangles_list == old(self).rectangles_list,
            final(self).prohibited_area_list == old(self).prohibited_area_list,
            final(self).showcase == old(self).showcase,
            final(self).spacing == old(self).spacing,
            final(self).max_length == old(self).max_length,
            final(self).defined_length == old(self).defined_length,
            final(self).defined_width == old(self).defined_width,
    {
        self.last_id = self.last_id + 1;
        self.last_id
    }

    pub fn get_pieces(&self) -> (r: Vec<Rectangle>)
        ensures
            r@ == self.rectangles_list@,
    {
        copy_vec(&self.rectangles_list)
    }

    pub fn add_piece(&mut self, piece: &Rectangle) -> (r: Rectangle)
        requires
            old(self).last_id < u32::MAX,
        ensures
            r == (Rectangle {
                id: (old(self).last_id + 1) as u32,
                width: piece.width,
                length: piece.length,
            }),
            final(self).rectangles_list@ == old(self).rectangles_list@.push(r),
            final(self).last_id == old(self).last_id + 1,
            final(self).prohibited_area_list == old(self).prohibited_area_list,
            final(self).showcase == old(self).showcase,
            final(self).spacing == old(self).spacing,
            final(self).max_length == old(self).max_length,
            final(self).defined_length == old(self).defined_length,
            final(self).defined_width == old(self).defined_width,
    {
        let piece_with_new_id = Rectangle {
            id: self.generate_next_id(),
            width: piece.width,
            length: piece.length,
        };
        self.rectangles_list.push(piece_with_new_id);
        piece_with_new_id
    }

    pub fn remove_piece(&mut self, id: u32) -> (r: Result<Rectangle, AppError>)
        ensures
            same_but_rectangles(*final(self), *old(self)),
            (r is Ok) == (exists|i: int|
                0 <= i < old(self).rectangles_list@.len()
                    && old(self).rectangles_list@[i].id == id),
            match r {
                Ok(rect) => exists|i: int| {
                    &&& #[trigger] is_first_with_id(old(self).rectangles_list@, id, i)
                    &&& rect == old(self).rectangles_list@[i]
                    &&& final(self).rectangles_list@ == old(self).rectangles_list@.remove(i)
                },
                Err(e) => {
                    &&& final(self).rectangles_list == old(self).rectangles_list
                    &&& e.status == DEFAULT_ERROR_CODE
                },
            },
    {
        let n = self.rectangles_list.len();
        for i in 0..n
            invariant
                n == self.rectangles_list.len(),
                *self == *old(self),
                forall|j: int| 0 <= j < i ==> self.rectangles_list@[j].id != id,
        {
            if self.rectangles_list[i].id == id {
                proof {
                    assert(is_first_with_id(self.rectangles_list@, id, i as int));
                }
                return Ok(self.rectangles_list.remove(i));
            }
        }
        Err(AppError::new(DEFAULT_ERROR_CODE, "Falha ao encontrar peça com o id fornecido"))
    }

    pub fn edit_piece(&mut self, piece: Rectangle) -> (r: Result<Rectangle, AppError>)
        ensures
            same_but_rectangles(*final(self), *old(self)),
            (r is Ok) == (exists|i: int|
                0 <= i < old(self).rectangles_list@.len()
                    && old(self).rectangles_list@[i].id == piece.id),
            match r {
                Ok(rect) => {
                    &&& rect == piece
                    &&& exists|i: int| {
                        &&& #[trigger] is_first_with_id(old(self).rectangles_list@, piece.id, i)
                        &&& final(self).rectangles_list@
                            == old(self).rectangles_list@.remove(i).push(piece)
                    }
                },
                Err(e) => {
                    &&& final(self).rectangles_list == old(self).rectangles_list
                    &&& e.status == DEFAULT_ERROR_CODE
                },
            },
    {
        match self.remove_piece(piece.id) {
            Ok(_) => {
                self.rectangles_list.push(piece);
                Ok(piece)
            },
            Err(e) => Err(e),
        }
    }

    pub fn get_showcase(&self) -> (r: Option<Rectangle>)
        ensures
            r == self.showcase,
    {
        self.showcase
    }

    pub fn add_showcase(&mut self, showcase: &Rectangle) -> (r: Rectangle)
        requires
            old(self).last_id < u32::MAX,
        ensures
            r == (Rectangle {
                id: (old(self).last_id + 1) as u32,
                width: showcase.width,
                length: showcase.length,
            }),
            final(self).showcase == Some(r),
            final(self).last_id == old(self).last_id + 1,
            final(self).rectangles_list == old(self).rectangles_list,
            final(self).prohibited_area_list == old(self).prohibited_area_list,
            final(self).spacing == old(self).spacing,
            final(self).max_length == old(self).max_length,
            final(self).defined_length == old(self).defined_length,
            final(self).defined_width == old(self).defined_width,
    {
        let showcase_with_new_id = Rectangle {
            id: self.generate_next_id(),
            width: showcase.width,
            length: showcase.length,
        };
        self.showcase = Some(showcase_with_new_id);
        showcase_with_new_id
    }

    pub fn remove_showcase(&mut self, id: u32) -> (r: Result<Rectangle, AppError>)
        ensures
            same_but_showcase(*final(self), *old(self)),
            (r is Ok) == (old(self).showcase is Some
                && old(self).showcase->Some_0.id == id),
            match r {
                Ok(rect) => {
                    &&& Some(rect) == old(self).showcase
                    &&& final(self).showcase is None
                },
                Err(e) => {
                    &&& final(self).showcase == old(self).showcase
                    &&& e.status == DEFAULT_ERROR_CODE
                },
            },
    {
        match self.showcase {
            Some(showcase) => {
                if showcase.id != id {
                    return Err(AppError::new(
                        DEFAULT_ERROR_CODE,
                        "Falha ao encontrar mostruário com o id fornecido",
                    ));
                }
                self.showcase = None;
                Ok(showcase)
            },
            None => Err(AppError::new(DEFAULT_ERROR_CODE, "Não existe mostruário a ser deletado")),
        }
    }

    pub fn edit_showcase(&mut self, showcase: Rectangle) -> (r: Result<Rectangle, AppError>)
        ensures
            same_but_showcase(*final(self), *old(self)),
            (r is Ok) == (old(self).showcase is Some
                && old(self).showcase->Some_0.id == showcase.id),
            match r {
                Ok(rect) => {
                    &&& rect == showcase
                    &&& final(self).showcase == Some(showcase)
                },
                Err(e) => {
                    &&& final(self).showcase == old(self).showcase
                    &&& e.status == DEFAULT_ERROR_CODE
                },
            },
    {
        match self.remove_showcase(showcase.id) {
            Ok(_) => {
                self.showcase = Some(showcase);
                Ok(showcase)
            },
            Err(e) => Err(e),
        }
    }

    pub fn get_prohibited_area(&self) -> (r: Vec<PositionedRectangle>)
        ensures
            r@ == self.prohibited_area_list@,
    {
        copy_vec(&self.prohibited_area_list)
    }

    pub fn add_prohibited_area(&mut self, prohibited_area: &PositionedRectangle)
        -> (r: PositionedRectangle)
        requires
            old(self).last_id < u32::MAX,
        ensures
            r == (PositionedRectangle {
                id: (old(self).last_id + 1) as u32,
                width: prohibited_area.width,
                length: prohibited_area.length,
                top_left_vertex: prohibited_area.top_left_vertex,
            }),
            final(self).prohibited_area_list@ == old(self).prohibited_area_list@.push(r),
            final(self).last_id == old(self).last_id + 1,
            final(self).rectangles_list == old(self).rectangles_list,
            final(self).showcase == old(self).showcase,
            final(self).spacing == old(self).spacing,
            final(self).max_length == old(self).max_length,
            final(self).defined_length == old(self).defined_length,
            final(self).defined_width == old(self).defined_width,
    {
        let prohibited_area_with_new_id = PositionedRectangle {
            id: self.generate_next_id(),
            width: prohibited_area.width,
            length: prohibited_area.length,
            top_left_vertex: prohibited_area.top_left_vertex,
        };
        self.prohibited_area_list.push(prohibited_area_with_new_id);
        prohibited_area_with_new_id
    }

    pub fn remove_prohibited_area(&mut self, id: u32)
        -> (r: Result<PositionedRectangle, AppError>)
        ensures
            same_but_prohibited(*final(self), *old(self)),
            (r is Ok) == (exists|i: int|
                0 <= i < old(self).prohibited_area_list@.len()
                    && old(self).prohibited_area_list@[i].id == id),
            match r {
                Ok(rect) => exists|i: int| {
                    &&& #[trigger] is_first_positioned_with_id(
                        old(self).prohibited_area_list@, id, i)
                    &&& rect == old(self).prohibited_area_list@[i]
                    &&& final(self).prohibited_area_list@
                        == old(self).prohibited_area_list@.remove(i)
                },
                Err(e) => {
                    &&& final(self).prohibited_area_list == old(self).prohibited_area_list
                    &&& e.status == DEFAULT_ERROR_CODE
                },
            },
    {
        let n = self.prohibited_area_list.len();
        for i in 0..n
            invariant
                n == self.prohibited_area_list.len(),
                *self == *old(self),
                forall|j: int| 0 <= j < i ==> self.prohibited_area_list@[j].id != id,
        {
            if self.prohibited_area_list[i].id == id {
                proof {
                    assert(is_first_positioned_with_id(self.prohibited_area_list@, id, i as int));
                }
                return Ok(self.prohibited_area_list.remove(i));
            }
        }
        Err(AppError::new(DEFAULT_ERROR_CODE, "Falha ao encontrar área proibida com o id fornecido"))
    }

    pub fn edit_prohibited_area(&mut self, prohibited_area: PositionedRectangle)
        -> (r: Result<PositionedRectangle, AppError>)
        ensures
            same_but_prohibited(*final(self), *old(self)),
            (r is Ok) == (exists|i: int|
                0 <= i < old(self).prohibited_area_list@.len()
                    && old(self).prohibited_area_list@[i].id == prohibited_area.id),
            match r {
                Ok(rect) => {
                    &&& rect == prohibited_area
                    &&& exists|i: int| {
                        &&& #[trigger] is_first_positioned_with_id(
                            old(self).prohibited_area_list@, prohibited_area.id, i)
                        &&& final(self).prohibited_area_list@
                            == old(self).prohibited_area_list@.remove(i).push(prohibited_area)
                    }
                },
                Err(e) => {
                    &&& final(self).prohibited_area_list == old(self).prohibited_area_list
                    &&& e.status == DEFAULT_ERROR_CODE
                },
            },
    {
        match self.remove_prohibited_area(prohibited_area.id) {
            Ok(_) => {
                self.prohibited_area_list.push(prohibited_area);
                Ok(prohibited_area)
            },
            Err(e) => Err(e),
        }
    }

    pub fn get_piece_by_id(&self, id: u32) -> (r: Result<Rectangle, ()>)
        ensures
            (r is Ok) == (exists|i: int|
                0 <= i < self.rectangles_list@.len() && self.rectangles_list@[i].id == id),
            match r {
                Ok(rect) => exists|i: int| {
                    &&& #[trigger] is_first_with_id(self.rectangles_list@, id, i)
                    &&& rect == self.rectangles_list@[i]
                },
                Err(_) => true,
            },
    {
        let n = self.rectangles_list.len();
        for i in 0..n
            invariant
                n == self.rectangles_list.len(),
                forall|j: int| 0 <= j < i ==> self.rectangles_list@[j].id != id,
        {
            if self.rectangles_list[i].id == id {
                proof {
                    assert(is_first_with_id(self.rectangles_list@, id, i as int));
                }
                return Ok(self.rectangles_list[i]);
            }
        }
        Err(())
    }

    pub fn get_prohibited_area_by_id(&self, id: u32) -> (r: Result<PositionedRectangle, ()>)
        ensures
            (r is Ok) == (exists|i: int|
                0 <= i < self.prohibited_area_list@.len()
                    && self.prohibited_area_list@[i].id == id),
            match r {
                Ok(rect) => exists|i: int| {
                    &&& #[trigger] is_first_positioned_with_id(self.prohibited_area_list@, id, i)
                    &&& rect == self.prohibited_area_list@[i]
                },
                Err(_) => true,
            },
    {
        let n = self.prohibited_area_list.len();
        for i in 0..n
            invariant
                n == self.prohibited_area_list.len(),
                forall|j: int| 0 <= j < i ==> self.prohibited_area_list@[j].id != id,
        {
            if self.prohibited_area_list[i].id == id {
                proof {
                    assert(is_first_positioned_with_id(self.prohibited_area_list@, id, i as int));
                }
                return Ok(self.prohibited_area_list[i]);
            }
        }
        Err(())
    }

    pub fn get_cut_disposition_input(&self) -> (r: CutDispositionInput)
        ensures
            r.rectangles_list@ == self.rectangles_list@,
            r.prohibited_area_list@ == self.prohibited_area_list@,
            r.showcase == self.showcase,
            r.spacing == self.spacing,
            r.max_length == self.max_length,
            r.defined_length == self.defined_length,
            r.defined_width == self.defined_width,
    {
        CutDispositionInput {
            rectangles_list: copy_vec(&self.rectangles_list),
            prohibited_area_list: copy_vec(&self.prohibited_area_list),
            showcase: self.showcase,
            spacing: self.spacing,
            max_length: self.max_length,
            defined_length: self.defined_length,
            defined_width: self.defined_width,
        }
    }

    pub fn get_config_cut_disposition_input(&self) -> (r: ConfigCutDispositionInput)
        ensures
            r.spacing == self.spacing,
            r.max_length == self.max_length,
            r.defined_length == self.defined_length,
            r.defined_width == self.defined_width,
    {
        ConfigCutDispositionInput {
            spacing: self.spacing,
            max_length: self.max_length,
            defined_length: self.defined_length,
            defined_width: self.defined_width,
        }
    }

    pub fn set_config_cut_disposition_input(&mut self, config: &ConfigCutDispositionInput)
        -> (r: Result<ConfigCutDispositionInput, AppError>)
        ensures
            final(self).rectangles_list == old(self).rectangles_list,
            final(self).prohibited_area_list == old(self).prohibited_area_list,
            final(self).showcase == old(self).showcase,
            final(self).last_id == old(self).last_id,
            (r is Ok) == ((config.spacing is Some ==> config.spacing->Some_0 > 0)
                && (config.defined_length is Some ==> config.defined_length->Some_0 > 0)
                && config.max_length > 0 && config.defined_width > 0),
            match r {
                Ok(c) => {
                    &&& final(self).spacing == config.spacing
                    &&& final(self).max_length == config.max_length
                    &&& final(self).defined_length == config.defined_length
                    &&& final(self).defined_width == config.defined_width
                    &&& c == *config
                },
                Err(e) => {
                    &&& final(self).spacing == old(self).spacing
                    &&& final(self).max_length == old(self).max_length
                    &&& final(self).defined_length == old(self).defined_length
                    &&& final(self).defined_width == old(self).defined_width
                    &&& e.status == DEFAULT_ERROR_CODE
                },
            },
    {
        let spacing_invalid = match config.spacing {
            Some(space) => space <= 0,
            None => false,
        };
        if spacing_invalid {
            return Err(AppError::new(
                DEFAULT_ERROR_CODE,
                "Erro ao configurar disposição: espaçamento deve ser maior que zero ou inexistente",
            ));
        }
        let defined_length_invalid = match config.defined_length {
            Some(len) => len <= 0,
            None => false,
        };
        if defined_length_invalid {
            return Err(AppError::new(
                DEFAULT_ERROR_CODE,
                "Erro ao configurar disposição: comprimento definido deve ser maior que zero ou inexistente",
            ));
        }
        if config.max_length <= 0 {
            return Err(AppError::new(
                DEFAULT_ERROR_CODE,
                "Erro ao configurar disposição: comprimento máximo deve ser maior que zero",
            ));
        }
        if config.defined_width <= 0 {
            return Err(AppError::new(
                DEFAULT_ERROR_CODE,
                "Erro ao configurar disposição: largura máxima deve ser maior que zero",
            ));
        }
        self.spacing = config.spacing;
        self.max_length = config.max_length;
        self.defined_length = config.defined_length;
        self.defined_width = config.defined_width;
        Ok(ConfigCutDispositionInput {
            spacing: config.spacing,
            max_length: config.max_length,
            defined_length: config.defined_length,
            defined_width: config.defined_width,
        })
    }
}

} // verus!
