//! Catalog record of a fabric.

use vstd::prelude::*;

verus! {

#[derive(Clone, Debug, PartialEq)]
pub struct Fabric {
    pub id: i32,
    pub name: String,
    pub manufacturer: String,
    pub width: i32,
    pub code: String,
}

#[derive(Clone, Debug, PartialEq)]
pub struct FabricCreate {
    pub name: String,
    pub manufacturer: String,
    pub width: i32,
    pub code: String,
}

} // verus!
