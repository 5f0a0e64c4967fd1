//! Word size and byte order of a binary, and the context that pairs them.

use vstd::prelude::*;

verus! {

/// The word-size class of a header layout.
#[derive(Clone, Copy, Debug, PartialEq, Eq, Structural)]
pub enum Container {
    /// The 32-bit layout.
    Narrow,
    /// The 64-bit layout.
    Wide,
}

/// The byte order of the multi-byte fields of a file.
#[derive(Clone, Copy, Debug, PartialEq, Eq, Structural)]
pub enum Endian {
    Little,
    Big,
}

impl Endian {
    /// `Little` when `little_endian` holds, `Big` otherwise.
    pub fn from_bool(little_endian: bool) -> (r: Endian)
        ensures
            r == (if little_endian { Endian::Little } else { Endian::Big }),
    {
        if little_endian {
            Endian::Little
        } else {
            Endian::Big
        }
    }

    /// Whether this is the little-endian order.
    pub fn is_little(&self) -> (r: bool)
        ensures
            r == (*self == Endian::Little),
    {
        match self {
            Endian::Little => true,
            Endian::Big => false,
        }
    }
}

/// The word size and byte order that parameterise every read of one file.
#[derive(Clone, Copy, Debug, PartialEq, Eq, Structural)]
pub struct Ctx {
    pub container: Container,
    pub le: Endian,
}

impl Ctx {
    /// Pairs a word size with a byte order.
    pub fn new(container: Container, le: Endian) -> (r: Ctx)
        ensures
            r.container == container,
            r.le == le,
    {
        Ctx { container, le }
    }

    /// Whether the 64-bit layout is in use.
    pub fn is_big(&self) -> (r: bool)
        ensures
            r == (self.container == Container::Wide),
    {
        match self.container {
            Container::Narrow => false,
            Container::Wide => true,
        }
    }

    /// Whether multi-byte fields are stored least significant byte first.
    pub fn is_little_endian(&self) -> (r: bool)
        ensures
            r == (self.le == Endian::Little),
    {
        self.le.is_little()
    }
}

} // verus!
