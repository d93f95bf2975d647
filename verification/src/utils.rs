//! Small general-purpose helpers.

use vstd::prelude::*;

verus! {

/// Wraps `value` in `Some` exactly when `option` is true.
pub fn get_optional_from_boolean_and_value<T>(option: bool, value: T) -> (r: Option<T>)
    ensures
        r == if option { Some(value) } else { None::<T> },
{
    if option {
        Some(value)
    } else {
        None
    }
}

/// An element-for-element copy of a vector of plain values.
pub fn copy_vec<T: Copy>(v: &Vec<T>) -> (r: Vec<T>)
    ensures
        r@ == v@,
{
    let mut r: Vec<T> = Vec::new();
    for i in 0..v.len()
        invariant
            r@ == v@.subrange(0, i as int),
    {
        r.push(v[i]);
    }
    assert(r@ =~= v@);
    r
}

} // verus!
