//! Typed key-ordering bindings.
//!
//! The engine orders keys (and, under the duplicate-sort flag, duplicate
//! values) as raw byte strings unless a comparator is installed at
//! handle-open time. A comparator here is a pure function over two byte
//! buffers, generated from any totally ordered value type: buffers are read
//! back as values of that type and compared by the type's own order, and a
//! buffer that fails to parse compares equal to everything. That keeps the
//! order total, never fails, and resolves ties elsewhere — exactly what the
//! engine demands of a callback it may invoke at any time, from any thread.

use vstd::prelude::*;

verus! {

/// A three-way comparison outcome.
#[derive(Clone, Copy, Debug, PartialEq, Eq, Structural)]
pub enum Cmp {
    Less,
    Equal,
    Greater,
}

/// A value type whose ordering can be installed into the engine as a key or
/// duplicate-value comparator. Implementors say how a value is read back
/// from a raw buffer and how two values compare; the comparison must be a
/// total order, which each implementation proves.
pub trait OrdKey: Sized {
    /// Whether the buffer `b` reads back as a value of this type.
    spec fn can_parse(b: Seq<u8>) -> bool;

    /// The value that the buffer `b` reads back as, when `can_parse(b)`.
    spec fn parse(b: Seq<u8>) -> Self;

    /// The type's ordering, as a reflexive "less than or equal".
    spec fn le(a: Self, b: Self) -> bool;

    /// Any two values compare.
    proof fn lemma_le_total(a: Self, b: Self)
        ensures
            Self::le(a, b) || Self::le(b, a),
    ;

    /// Values that compare equal both ways are the same value.
    proof fn lemma_le_antisymmetric(a: Self, b: Self)
        requires
            Self::le(a, b),
            Self::le(b, a),
        ensures
            a == b,
    ;

    /// The ordering composes.
    proof fn lemma_le_transitive(a: Self, b: Self, c: Self)
        requires
            Self::le(a, b),
            Self::le(b, c),
        ensures
            Self::le(a, c),
    ;

    /// Reads a value back from a raw buffer, or nothing when the buffer does
    /// not parse as this type.
    fn from_bytes(b: &[u8]) -> (r: Option<Self>)
        ensures
            r is Some <==> Self::can_parse(b@),
            r matches Some(v) ==> v == Self::parse(b@),
    ;

    /// Compares two values by the type's ordering.
    fn cmp_keys(&self, other: &Self) -> (c: Cmp)
        ensures
            (c == Cmp::Equal) == (*self == *other),
            *self != *other ==> (c == Cmp::Less) == Self::le(*self, *other),
            *self != *other ==> (c == Cmp::Greater) == !Self::le(*self, *other),
    ;
}

/// The three-way comparison that a total order `le` induces.
pub open spec fn cmp_of<K: OrdKey>(a: K, b: K) -> Cmp {
    if a == b {
        Cmp::Equal
    } else if K::le(a, b) {
        Cmp::Less
    } else {
        Cmp::Greater
    }
}

/// The order a comparator generated from `K` puts on raw buffers: parseable
/// buffers compare as the values they read back as, and a buffer that fails
/// to parse compares equal to every buffer.
pub open spec fn entry_cmp_spec<K: OrdKey>(a: Seq<u8>, b: Seq<u8>) -> Cmp {
    if K::can_parse(a) && K::can_parse(b) {
        cmp_of::<K>(K::parse(a), K::parse(b))
    } else {
        Cmp::Equal
    }
}

/// The comparator generated from `K`: the pure function over two raw
/// buffers that the unverified driver wraps into the engine's callback when
/// a handle is opened with a `K` ordering.
pub fn entry_cmp_as<K: OrdKey>(a: &[u8], b: &[u8]) -> (c: Cmp)
    ensures
        c == entry_cmp_spec::<K>(a@, b@),
{
    match (K::from_bytes(a), K::from_bytes(b)) {
        (Some(x), Some(y)) => x.cmp_keys(&y),
        _ => Cmp::Equal,
    }
}

/// On buffers that parse as `K`, the comparator generated from `K` orders
/// exactly as `K`'s own ordering orders the parsed values.
pub proof fn lemma_entry_cmp_matches_key_order<K: OrdKey>(a: Seq<u8>, b: Seq<u8>)
    requires
        K::can_parse(a),
        K::can_parse(b),
    ensures
        entry_cmp_spec::<K>(a, b) == cmp_of::<K>(K::parse(a), K::parse(b)),
{
}

/// A buffer that fails to parse as `K` compares equal to every buffer —
/// in particular to every other unparseable buffer and to every parseable
/// one.
pub proof fn lemma_entry_cmp_unparsed_equal<K: OrdKey>(a: Seq<u8>, b: Seq<u8>)
    requires
        !K::can_parse(a) || !K::can_parse(b),
    ensures
        entry_cmp_spec::<K>(a, b) == Cmp::Equal,
{
}

/// The order the comparator puts on buffers is total: every buffer compares
/// equal to itself, comparing equal is symmetric, and a strict comparison
/// reverses when the arguments swap. Degenerate — unparseable buffers tie
/// with everything — but total.
pub proof fn lemma_entry_cmp_total<K: OrdKey>(a: Seq<u8>, b: Seq<u8>)
    ensures
        entry_cmp_spec::<K>(a, a) == Cmp::Equal,
        (entry_cmp_spec::<K>(a, b) == Cmp::Equal) == (entry_cmp_spec::<K>(b, a) == Cmp::Equal),
        (entry_cmp_spec::<K>(a, b) == Cmp::Less) == (entry_cmp_spec::<K>(b, a) == Cmp::Greater),
{
    if K::can_parse(a) && K::can_parse(b) {
        let x = K::parse(a);
        let y = K::parse(b);
        K::lemma_le_total(x, y);
        if K::le(x, y) && K::le(y, x) {
            K::lemma_le_antisymmetric(x, y);
        }
    }
}

/// Buffers of exactly four bytes read back as little-endian `u32` values
/// and order as integers; any other length fails to parse.
impl OrdKey for u32 {
    open spec fn can_parse(b: Seq<u8>) -> bool {
        b.len() == 4
    }

    open spec fn parse(b: Seq<u8>) -> u32 {
        ((b[0] as int) + (b[1] as int) * 0x100 + (b[2] as int) * 0x10000 + (b[3] as int)
            * 0x1000000) as u32
    }

    open spec fn le(a: u32, b: u32) -> bool {
        a <= b
    }

    proof fn lemma_le_total(a: u32, b: u32) {
    }

    proof fn lemma_le_antisymmetric(a: u32, b: u32) {
    }

    proof fn lemma_le_transitive(a: u32, b: u32, c: u32) {
    }

    fn from_bytes(b: &[u8]) -> (r: Option<u32>) {
        if b.len() == 4 {
            let v: u32 = (b[0] as u32) + (b[1] as u32) * 0x100 + (b[2] as u32) * 0x10000 + (
            b[3] as u32) * 0x1000000;
            Some(v)
        } else {
            None
        }
    }

    fn cmp_keys(&self, other: &u32) -> (c: Cmp) {
        if *self == *other {
            Cmp::Equal
        } else if *self < *other {
            Cmp::Less
        } else {
            Cmp::Greater
        }
    }
}

} // verus!
