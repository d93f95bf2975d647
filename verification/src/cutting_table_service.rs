//! Validation of cutting-table records before they are persisted. The
//! persistence itself is the surrounding application's concern.

use vstd::prelude::*;

use crate::app_error::{AppError, DEFAULT_ERROR_CODE};
use crate::cutting_table::{CuttingTable, CuttingTableCreate};
use crate::text::{trim_to_string, trimmed};

verus! {

pub fn trim_create_cutting_table_create_fields(cutting_table: CuttingTableCreate)
    -> (r: CuttingTableCreate)
    ensures
        r.name@ == trimmed(cutting_table.name@),
        trimmed(r.name@) == r.name@,
        r.width == cutting_table.width,
        r.length == cutting_table.length,
{
    let mut new_cutting_table = cutting_table;
    new_cutting_table.name = trim_to_string(new_cutting_table.name.as_str());

    new_cutting_table
}

pub fn verify_create_cutting_table_create_fields(cutting_table: &CuttingTableCreate)
    -> (r: Result<(), AppError>)
    ensures
        (r is Ok) == (trimmed(cutting_table.name@).len() > 0 && cutting_table.width > 0
            && cutting_table.length > 0),
        match r {
            Ok(_) => true,
            Err(e) => {
                &&& e.status == DEFAULT_ERROR_CODE
                &&& e.message@ == if trimmed(cutting_table.name@).len() == 0 {
                    "Campo obrigatório: nome"@
                } else if cutting_table.width <= 0 {
                    "Campo deve ser maior que zero: largura"@
                } else {
                    "Campo deve ser maior que zero: comprimento"@
                }
            },
        },
{
    let trimmed_name = trim_to_string(cutting_table.name.as_str());
    if trimmed_name.as_str().is_empty() {
        return Err(AppError::new(DEFAULT_ERROR_CODE, "Campo obrigatório: nome"));
    }
    if cutting_table.width <= 0 {
        return Err(AppError::new(
            DEFAULT_ERROR_CODE,
            "Campo deve ser maior que zero: largura",
        ));
    }
    if cutting_table.length <= 0 {
        return Err(AppError::new(
            DEFAULT_ERROR_CODE,
            "Campo deve ser maior que zero: comprimento",
        ));
    }
    Ok(())
}

pub fn trim_create_cutting_table_fields(cutting_table: CuttingTable) -> (r: CuttingTable)
    ensures
        r.name@ == trimmed(cutting_table.name@),
        trimmed(r.name@) == r.name@,
        r.id == cutting_table.id,
        r.width == cutting_table.width,
        r.length == cutting_table.length,
{
    let mut new_cutting_table = cutting_table;
    new_cutting_table.name = trim_to_string(new_cutting_table.name.as_str());

    new_cutting_table
}

pub fn verify_create_cutting_table_fields(cutting_table: &CuttingTable)
    -> (r: Result<(), AppError>)
    ensures
        (r is Ok) == (trimmed(cutting_table.name@).len() > 0 && cutting_table.width > 0
            && cutting_table.length > 0),
        match r {
            Ok(_) => true,
            Err(e) => {
                &&& e.status == DEFAULT_ERROR_CODE
                &&& e.message@ == if trimmed(cutting_table.name@).len() == 0 {
                    "Campo obrigatório: nome"@
                } else if cutting_table.width <= 0 {
                    "Campo deve ser maior que zero: largura"@
                } else {
                    "Campo deve ser maior que zero: comprimento"@
                }
            },
        },
{
    let trimmed_name = trim_to_string(cutting_table.name.as_str());
    if trimmed_name.as_str().is_empty() {
        return Err(AppError::new(DEFAULT_ERROR_CODE, "Campo obrigatório: nome"));
    }
    if cutting_table.width <= 0 {
        return Err(AppError::new(
            DEFAULT_ERROR_CODE,
            "Campo deve ser maior que zero: largura",
        ));
    }
    if cutting_table.length <= 0 {
        return Err(AppError::new(
            DEFAULT_ERROR_CODE,
            "Campo deve ser maior que zero: comprimento",
        ));
    }
    Ok(())
}

} // verus!
