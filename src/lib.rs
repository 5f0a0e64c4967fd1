//! Decoding of Mach-O file headers and byte-offset string tables.
//!
//! The header decoder sniffs the magic number to learn the word size and the
//! byte order of a file, then reads the matching fixed-size header layout and
//! normalises it into one container-independent [`header::Header`]. The string
//! table is a borrowed view over a bytes region whose entries are found by
//! byte offset and read lazily.

pub mod container;
pub mod error;
pub mod header;
pub mod strtab;

pub use container::{Container, Ctx, Endian};
pub use error::Error;
pub use header::{filetype_to_str, flag_to_str, Header, Header32, Header64};

pub use strtab::Strtab;
