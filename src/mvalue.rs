use vstd::prelude::*;
use crate::rgba::Rgba;
use crate::store::EntityId;

verus! {

/// A position or offset as three IEEE-754 single-precision bit patterns; the
/// mirror passes it through without doing arithmetic on it.
#[derive(Clone, Copy, Debug, PartialEq, Eq, Structural)]
pub struct Vector3 {
    pub x: u32,
    pub y: u32,
    pub z: u32,
}

impl Vector3 {
    /// A vector from the bit patterns of its three components.
    pub fn new(x: u32, y: u32, z: u32) -> (r: Vector3)
        ensures
            r == (Vector3 { x, y, z }),
    {
        Vector3 { x, y, z }
    }
}

/// A boxed value exchanged with the host in script events and meta data.
/// Object references are already resolved to entities.
#[derive(Debug)]
pub enum MValue {
    /// No value at all (the host's "none").
    Empty,
    Nil,
    Bool(bool),
    Int(i64),
    Uint(u64),
    /// A double as its IEEE-754 bit pattern.
    Double(u64),
    String(String),
    List(Vec<MValue>),
    Dict(Vec<(String, MValue)>),
    Entity(EntityId),
    Vector3(Vector3),
    Rgba(Rgba),
    ByteArray(Vec<u8>),
}

} // verus!
