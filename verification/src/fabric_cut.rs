//! View model of a finished cut for display: each piece with the outcome of
//! its placement.

use vstd::prelude::*;

verus! {

#[derive(Clone, Copy, Debug, PartialEq, Eq, Structural)]
pub struct Vertex {
    pub pos_x: i32,
    pub pos_y: i32,
}

#[derive(Clone, Debug, PartialEq)]
pub enum PieceStatus {
    Fit { position: Vertex },
    DidNotFit,
    ProhibitedArea { position: Vertex },
    Showcase { position_list: Vec<Vertex> },
}

#[derive(Clone, Debug, PartialEq)]
pub struct FabricCutPiece {
    pub id: i32,
    pub width: i32,
    pub length: i32,
    pub status: PieceStatus,
}

#[derive(Clone, Copy, Debug, PartialEq, Eq, Structural, Hash)]
pub struct PositionedRectangle {
    pub id: i32,
    pub width: i32,
    pub length: i32,
    pub pos_x: i32,
    pub pos_y: i32,
}

/// The X position of a piece that stands at one fixed place.
pub fn get_optional_pos_x(piece: &FabricCutPiece) -> (r: Option<i32>)
    ensures
        r == match piece.status {
            PieceStatus::Fit { position } => Some(position.pos_x),
            PieceStatus::DidNotFit => None::<i32>,
            PieceStatus::ProhibitedArea { position } => Some(position.pos_x),
            PieceStatus::Showcase { .. } => None::<i32>,
        },
{
    match &piece.status {
        PieceStatus::Fit { position } => Some(position.pos_x),
        PieceStatus::DidNotFit => None,
        PieceStatus::ProhibitedArea { position } => Some(position.pos_x),
        PieceStatus::Showcase { .. } => None,
    }
}

/// The Y position of a piece that stands at one fixed place.
pub fn get_optional_pos_y(piece: &FabricCutPiece) -> (r: Option<i32>)
    ensures
        r == match piece.status {
            PieceStatus::Fit { position } => Some(position.pos_y),
            PieceStatus::DidNotFit => None::<i32>,
            PieceStatus::ProhibitedArea { position } => Some(position.pos_y),
            PieceStatus::Showcase { .. } => None::<i32>,
        },
{
    match &piece.status {
        PieceStatus::Fit { position } => Some(position.pos_y),
        PieceStatus::DidNotFit => None,
        PieceStatus::ProhibitedArea { position } => Some(position.pos_y),
        PieceStatus::Showcase { .. } => None,
    }
}

} // verus!
