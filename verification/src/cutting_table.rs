//! Catalog record of a cutting table.

use vstd::prelude::*;

verus! {

#[derive(Clone, Debug, PartialEq)]
pub struct CuttingTable {
    pub id: i32,
    pub name: String,
    pub width: i32,
    pub length: i32,
}

#[derive(Clone, Debug, PartialEq)]
pub struct CuttingTableCreate {
    pub name: String,
    pub width: i32,
    pub length: i32,
}

} // verus!
