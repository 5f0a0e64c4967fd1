//! A byte-offset based string table.
//!
//! Commonly used in ELF binaries, Unix archives and Mach-O symbol tables: a
//! region of bytes holding delimiter-terminated strings, looked up by the byte
//! offset at which an entry starts rather than by its index.

use vstd::prelude::*;
use vstd::string::*;
use vstd::utf8::*;
use scroll::Pread;
use scroll::Error as ScrollError;

verus! {

broadcast use vstd::utf8::encode_utf8_decode_utf8;

/// The error type of scroll's reads; opaque here.
#[verifier::external_type_specification]
#[verifier::external_body]
pub struct ExScrollError(ScrollError);

/// The number of bytes from `i` up to the first `delim` at or after it, or
/// up to the end of `b`.
pub open spec fn entry_len(b: Seq<u8>, i: int, delim: u8) -> nat
    decreases b.len() - i,
{
    if i < 0 || i >= b.len() || b[i] == delim {
        0
    } else {
        1 + entry_len(b, i + 1, delim)
    }
}

/// The bytes of the entry that starts at `i`: those before the first `delim`
/// at or after `i`, or before the end of `b`.
pub open spec fn entry(b: Seq<u8>, i: int, delim: u8) -> Seq<u8> {
    b.subrange(i, i + entry_len(b, i, delim))
}

/// The entries met by walking `b` from `i`: one entry, then on from just past
/// its delimiter, until the end of `b`. A delimiter at the very end starts no
/// further entry.
pub open spec fn entries(b: Seq<u8>, i: int, delim: u8) -> Seq<Seq<u8>>
    decreases b.len() - i,
{
    if i < 0 || i >= b.len() {
        seq![]
    } else {
        let next = i + entry_len(b, i, delim) + 1;
        seq![entry(b, i, delim)] + entries(b, if next > b.len() { b.len() as int } else { next }, delim)
    }
}

/// An entry ends within the bytes.
pub proof fn lemma_entry_len_bound(b: Seq<u8>, i: int, delim: u8)
    requires
        0 <= i <= b.len(),
    ensures
        i + entry_len(b, i, delim) <= b.len(),
        i + entry_len(b, i, delim) < b.len() ==> b[i + entry_len(b, i, delim)] == delim,
    decreases b.len() - i,
{
    if i < b.len() && b[i] != delim {
        lemma_entry_len_bound(b, i + 1, delim);
    }
}

/// Relies on scroll's `Pread::pread_with` reading a `&str` under
/// `StrCtx::Delimiter`: from `offset`, the bytes before the first delimiter (or
/// the end of `bytes`), accepted when `str::from_utf8` accepts them.
#[verifier::external_body]
fn pread_str<'a>(bytes: &'a [u8], offset: usize, delim: u8) -> (r: Result<&'a str, ScrollError>)
    requires
        offset <= bytes@.len(),
    ensures
        (r is Ok) == valid_utf8(entry(bytes@, offset as int, delim)),
        r matches Ok(s) ==> s.spec_bytes() == entry(bytes@, offset as int, delim),
{
    bytes.pread_with::<&str>(offset, scroll::ctx::StrCtx::Delimiter(delim))
}

/// Relies on scroll's `Pread::pread_with` reading a `&[u8]` of `len` bytes:
/// the bytes from `offset` on, when `offset + len` lies within `bytes`.
#[verifier::external_body]
fn pread_slice<'a>(bytes: &'a [u8], offset: usize, len: usize) -> (r: Result<&'a [u8], ScrollError>)
    ensures
        (r is Ok) == (offset + len <= bytes@.len()),
        r matches Ok(s) ==> s@ == bytes@.subrange(offset as int, offset + len),
{
    bytes.pread_with::<&[u8]>(offset, len)
}

/// A string table indexed by byte offsets (and not by entry index), over
/// borrowed bytes and with a delimiter of the caller's choice.
#[derive(Debug)]
pub struct Strtab<'a> {
    bytes: &'a [u8],
    delim: u8,
}

impl<'a> Strtab<'a> {
    /// The bytes of the table.
    pub closed spec fn region(&self) -> Seq<u8> {
        self.bytes@
    }

    /// The byte that ends each entry.
    pub closed spec fn delimiter(&self) -> u8 {
        self.delim
    }

    /// A table over `bytes`, entries ending at `delim`.
    pub fn new(bytes: &'a [u8], delim: u8) -> (r: Strtab<'a>)
        ensures
            r.region() == bytes@,
            r.delimiter() == delim,
    {
        Strtab { bytes, delim }
    }

    /// A table over the `len` bytes of `bytes` that start at `offset`, entries
    /// ending at `delim`; `Malformed` when that region does not lie within
    /// `bytes`.
    pub fn parse(bytes: &'a [u8], offset: usize, len: usize, delim: u8) -> (r: Result<
        Strtab<'a>,
        crate::error::Error,
    >)
        ensures
            (r is Ok) == (offset + len <= bytes@.len()),
            r matches Ok(t) ==> t.region() == bytes@.subrange(offset as int, offset + len)
                && t.delimiter() == delim,
            r matches Err(e) ==> e.is_malformed(),
    {
        match pread_slice(bytes, offset, len) {
            Ok(region) => Ok(Strtab { bytes: region, delim }),
            Err(_) => Err(crate::error::Error::Malformed(String::from_str("string table region is out of bounds"))),
        }
    }

    /// The entry that starts at byte `offset`, without its delimiter.
    ///
    /// `Malformed` when `offset` is not within the table, or when the entry's
    /// bytes are not valid UTF-8.
    pub fn get(&self, offset: usize) -> (r: Result<&'a str, crate::error::Error>)
        ensures
            (r is Ok) == (offset < self.region().len() && valid_utf8(
                entry(self.region(), offset as int, self.delimiter()),
            )),
            r matches Ok(s) ==> s.spec_bytes() == entry(
                self.region(),
                offset as int,
                self.delimiter(),
            ) && s@ == decode_utf8(entry(self.region(), offset as int, self.delimiter())),
            r matches Err(e) ==> e.is_malformed(),
    {
        if offset >= self.bytes.len() {
            return Err(crate::error::Error::Malformed(String::from_str("string table offset is out of bounds")));
        }
        match pread_str(self.bytes, offset, self.delim) {
            Ok(s) => Ok(s),
            Err(_) => Err(crate::error::Error::Malformed(String::from_str("string table entry is not valid UTF-8"))),
        }
    }

    /// Every entry of the table in order, walking from offset 0 and stepping
    /// past each entry's delimiter. An empty entry is kept, also a leading one;
    /// a delimiter at the very end starts no further entry.
    ///
    /// `Malformed` when some entry is not valid UTF-8.
    pub fn to_vec(self) -> (r: Result<Vec<String>, crate::error::Error>)
        ensures
            (r is Ok) == (forall|k: int|
                0 <= k < entries(self.region(), 0, self.delimiter()).len() ==> valid_utf8(
                    #[trigger] entries(self.region(), 0, self.delimiter())[k],
                )),
            r matches Ok(v) ==> v@.len() == entries(self.region(), 0, self.delimiter()).len()
                && forall|k: int|
                0 <= k < v@.len() ==> (#[trigger] v@[k])@ == decode_utf8(
                    entries(self.region(), 0, self.delimiter())[k],
                ),
            r matches Err(e) ==> e.is_malformed(),
    {
        let len = self.bytes.len();
        let ghost b = self.bytes@;
        let ghost d = self.delim;
        let ghost es = entries(b, 0, d);
        let mut strings: Vec<String> = Vec::new();
        let mut i: usize = 0;
        while i < len
            invariant
                i <= len,
                len == b.len(),
                b == self.region(),
                d == self.delimiter(),
                es == entries(b, 0, d),
                strings@.len() <= es.len(),
                entries(b, i as int, d) == es.skip(strings@.len() as int),
                forall|k: int|
                    0 <= k < strings@.len() ==> valid_utf8(#[trigger] es[k]) && strings@[k]@
                        == decode_utf8(es[k]),
            decreases len - i,
        {
            let ghost k = strings@.len() as int;
            proof {
                lemma_entry_len_bound(b, i as int, d);
                assert(entries(b, i as int, d).len() > 0);
                assert(entries(b, i as int, d)[0] == entry(b, i as int, d));
                assert(es.skip(k)[0] == es[k]);
            }
            let s = match self.get(i) {
                Ok(s) => s,
                Err(e) => {
                    proof {
                        assert(!valid_utf8(es[k]));
                    }
                    return Err(e);
                },
            };
            let n = s.len();
            strings.push(String::from_str(s));
            proof {
                assert(es.skip(k + 1) =~= es.skip(k).drop_first());
            }
            i = i + n;
            if i < len {
                i = i + 1;
            }
        }
        proof {
            assert(strings@.len() == es.len());
        }
        Ok(strings)
    }
}

impl<'a> Default for Strtab<'a> {
    fn default() -> (r: Strtab<'a>)
        ensures
            r.region().len() == 0,
            r.delimiter() == 0,
    {
        Strtab { bytes: &[], delim: 0 }
    }
}

} // verus!
