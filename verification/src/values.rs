//! Attribute values as they are handed to the application.
use vstd::prelude::*;
use crate::types::{vx_border_t, vx_coordinates2d_t, vx_enum, vx_status};

verus! {

/// The value of an attribute.
#[derive(Debug, Clone, Copy, PartialEq, Eq, Structural)]
pub enum Value {
    Enum(vx_enum),
    Number(u32),
    Int(i32),
    Small(i8),
    Size(usize),
    Long(u64),
    Point(vx_coordinates2d_t),
    Reference(u64),
    Border(vx_border_t),
}

/// The bytes an enumeration takes.
pub const ENUM_BYTES: usize = 4;

/// The bytes a number takes.
pub const NUMBER_BYTES: usize = 4;

/// The bytes a size takes.
pub const SIZE_BYTES: usize = 8;

/// The bytes a reference takes.
pub const REFERENCE_BYTES: usize = 8;

/// The bytes a point takes.
pub const POINT_BYTES: usize = 8;

/// The bytes a border takes.
pub const BORDER_BYTES: usize = 20;

/// The value where there is room for at least `bytes` bytes, the error otherwise.
pub open spec fn with_room(
    size: usize,
    bytes: usize,
    value: Value,
    error: vx_status,
) -> Result<Value, vx_status> {
    if size >= bytes {
        Ok(value)
    } else {
        Err(error)
    }
}

/// The value where there is room for exactly `bytes` bytes, the error otherwise.
pub open spec fn with_exact_room(
    size: usize,
    bytes: usize,
    value: Value,
    error: vx_status,
) -> Result<Value, vx_status> {
    if size == bytes {
        Ok(value)
    } else {
        Err(error)
    }
}

/// Hands out a value where there is room for at least `bytes` bytes.
pub fn hand_out(size: usize, bytes: usize, value: Value, error: vx_status) -> (r: Result<
    Value,
    vx_status,
>)
    ensures
        r == with_room(size, bytes, value, error),
{
    if size >= bytes {
        Ok(value)
    } else {
        Err(error)
    }
}

/// Hands out a value where there is room for exactly `bytes` bytes.
pub fn hand_out_exactly(size: usize, bytes: usize, value: Value, error: vx_status) -> (r: Result<
    Value,
    vx_status,
>)
    ensures
        r == with_exact_room(size, bytes, value, error),
{
    if size == bytes {
        Ok(value)
    } else {
        Err(error)
    }
}

} // verus!
