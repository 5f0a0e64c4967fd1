//! Errors reported while decoding.

use vstd::prelude::*;

verus! {

/// What went wrong while decoding a header or a string-table entry.
#[derive(Debug)]
pub enum Error {
    /// The leading four bytes are none of the recognised magic numbers;
    /// carries the value read, widened.
    BadMagic(u64),
    /// The input is too short, an offset lies outside the region, or an entry
    /// is not valid UTF-8.
    Malformed(String),
}

impl Error {
    /// True for the `Malformed` kind.
    pub open spec fn is_malformed(&self) -> bool {
        self is Malformed
    }
}

} // verus!
