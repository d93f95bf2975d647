//! Validation of fabric records before they are persisted. The persistence
//! itself is the surrounding application's concern.

use vstd::prelude::*;

use crate::app_error::{AppError, DEFAULT_ERROR_CODE};
use crate::fabric::{Fabric, FabricCreate};
use crate::text::{trim_to_string, trimmed};

verus! {

pub fn trim_create_fabric_create_fields(fabric: FabricCreate) -> (r: FabricCreate)
    ensures
        r.name@ == trimmed(fabric.name@),
        trimmed(r.name@) == r.name@,
        r.manufacturer@ == trimmed(fabric.manufacturer@),
        r.code@ == trimmed(fabric.code@),
        r.width == fabric.width,
{
    let mut new_fabric = fabric;
    new_fabric.name = trim_to_string(new_fabric.name.as_str());
    new_fabric.manufacturer = trim_to_string(new_fabric.manufacturer.as_str());
    new_fabric.code = trim_to_string(new_fabric.code.as_str());

    new_fabric
}

pub fn verify_create_fabric_create_fields(fabric: &FabricCreate) -> (r: Result<(), AppError>)
    ensures
        (r is Ok) == (trimmed(fabric.name@).len() > 0 && fabric.width > 0),
        match r {
            Ok(_) => true,
            Err(e) => {
                &&& e.status == DEFAULT_ERROR_CODE
                &&& e.message@ == if trimmed(fabric.name@).len() == 0 {
                    "Campo obrigatório: nome"@
                } else {
                    "Campo deve ser maior que zero: largura"@
                }
            },
        },
{
    let trimmed_name = trim_to_string(fabric.name.as_str());
    if trimmed_name.as_str().is_empty() {
        return Err(AppError::new(DEFAULT_ERROR_CODE, "Campo obrigatório: nome"));
    }
    if fabric.width <= 0 {
        return Err(AppError::new(
            DEFAULT_ERROR_CODE,
            "Campo deve ser maior que zero: largura",
        ));
    }
    Ok(())
}

pub fn trim_create_fabric_fields(fabric: Fabric) -> (r: Fabric)
    ensures
        r.name@ == trimmed(fabric.name@),
        trimmed(r.name@) == r.name@,
        r.manufacturer@ == trimmed(fabric.manufacturer@),
        r.code@ == trimmed(fabric.code@),
        r.id == fabric.id,
        r.width == fabric.width,
{
    let mut new_fabric = fabric;
    new_fabric.name = trim_to_string(new_fabric.name.as_str());
    new_fabric.manufacturer = trim_to_string(new_fabric.manufacturer.as_str());
    new_fabric.code = trim_to_string(new_fabric.code.as_str());

    new_fabric
}

pub fn verify_create_fabric_fields(fabric: &Fabric) -> (r: Result<(), AppError>)
    ensures
        (r is Ok) == (trimmed(fabric.name@).len() > 0 && fabric.width > 0),
        match r {
            Ok(_) => true,
            Err(e) => {
                &&& e.status == DEFAULT_ERROR_CODE
                &&& e.message@ == if trimmed(fabric.name@).len() == 0 {
                    "Campo obrigatório: nome"@
                } else {
                    "Campo deve ser maior que zero: largura"@
                }
            },
        },
{
    let trimmed_name = trim_to_string(fabric.name.as_str());
    if trimmed_name.as_str().is_empty() {
        return Err(AppError::new(DEFAULT_ERROR_CODE, "Campo obrigatório: nome"));
    }
    if fabric.width <= 0 {
        return Err(AppError::new(
            DEFAULT_ERROR_CODE,
            "Campo deve ser maior que zero: largura",
        ));
    }
    Ok(())
}

} // verus!
