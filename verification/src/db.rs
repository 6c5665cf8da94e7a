//! Flags used when opening databases.
//!
//! These are the engine's documented option bits; a `DatabaseOptions` carries
//! their union. Their semantics belong to the engine: the handle layer only
//! passes them through to the handle-open primitive.

use vstd::prelude::*;

verus! {

/// Keys are compared as strings from the end to the beginning
/// (right-to-left comparison, not an order reversal).
pub const REVERSEKEY: u32 = 0x02;

/// A key may carry several data items, kept in sorted order.
pub const DUPSORT: u32 = 0x04;

/// Keys are native binary integers of one fixed size.
pub const INTEGERKEY: u32 = 0x08;

/// With `DUPSORT`: all data items of a key have the same size.
pub const DUPFIXED: u32 = 0x10;

/// With `DUPSORT`: duplicate data items are native binary integers.
pub const INTEGERDUP: u32 = 0x20;

/// With `DUPSORT`: duplicate data items are compared right-to-left.
pub const REVERSEDUP: u32 = 0x40;

/// Create the named database if it does not exist yet.
pub const CREATE: u32 = 0x40000;

/// The empty flag set: natural key ordering, unique keys.
pub fn empty() -> (f: u32)
    ensures
        f == 0u32,
{
    0u32
}

} // verus!
