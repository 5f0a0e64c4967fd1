//! The Mach-O file header: its two fixed on-disk layouts, the unified value
//! they normalise into, and the decode entry point that sniffs the magic.
//!
//! Throughout, the `magic` field holds the first four bytes of the header read
//! least significant byte first. A little-endian file therefore shows
//! `MH_MAGIC` or `MH_MAGIC_64` there, and a big-endian file the byte-swapped
//! `MH_CIGAM` or `MH_CIGAM_64`; every other multi-byte field is read in the
//! file's own byte order.

use vstd::prelude::*;
use vstd::string::*;
use crate::container::{Container, Ctx, Endian};
use crate::error::Error;

verus! {

// Constants for the flags field of the header.
/// The object file has no undefined references.
pub const MH_NOUNDEFS: u32 = 0x1;
/// The object file is the output of an incremental link against a base file
/// and cannot be link edited again.
pub const MH_INCRLINK: u32 = 0x2;
/// The object file is input for the dynamic linker and cannot be statically
/// link edited again.
pub const MH_DYLDLINK: u32 = 0x4;
/// The object file's undefined references are bound by the dynamic linker
/// when loaded.
pub const MH_BINDATLOAD: u32 = 0x8;
/// The file has its dynamic undefined references prebound.
pub const MH_PREBOUND: u32 = 0x10;
/// The file has its read-only and read-write segments split.
pub const MH_SPLIT_SEGS: u32 = 0x20;
/// The shared library init routine is to be run lazily via catching memory
/// faults to its writeable segments (obsolete).
pub const MH_LAZY_INIT: u32 = 0x40;
/// The image is using two-level name space bindings.
pub const MH_TWOLEVEL: u32 = 0x80;
/// The executable is forcing all images to use flat name space bindings.
pub const MH_FORCE_FLAT: u32 = 0x100;
/// This umbrella guarantees no multiple definitions of symbols in its
/// sub-images so the two-level namespace hints can always be used.
pub const MH_NOMULTIDEFS: u32 = 0x200;
/// Do not have dyld notify the prebinding agent about this executable.
pub const MH_NOFIXPREBINDING: u32 = 0x400;
/// The binary is not prebound but can have its prebinding redone; only used
/// when `MH_PREBOUND` is not set.
pub const MH_PREBINDABLE: u32 = 0x800;
/// This binary binds to all two-level namespace modules of its dependent
/// libraries; only used when `MH_PREBINDABLE` and `MH_TWOLEVEL` are both set.
pub const MH_ALLMODSBOUND: u32 = 0x1000;
/// Safe to divide up the sections into sub-sections via symbols for dead code
/// stripping.
pub const MH_SUBSECTIONS_VIA_SYMBOLS: u32 = 0x2000;
/// The binary has been canonicalized via the unprebind operation.
pub const MH_CANONICAL: u32 = 0x4000;
/// The final linked image contains external weak symbols.
pub const MH_WEAK_DEFINES: u32 = 0x8000;
/// The final linked image uses weak symbols.
pub const MH_BINDS_TO_WEAK: u32 = 0x10000;
/// All stacks in the task will be given stack execution privilege; only used
/// in `MH_EXECUTE` filetypes.
pub const MH_ALLOW_STACK_EXECUTION: u32 = 0x20000;
/// The binary declares it is safe for use in processes with uid zero.
pub const MH_ROOT_SAFE: u32 = 0x40000;
/// The binary declares it is safe for use in processes when issetugid() is
/// true.
pub const MH_SETUID_SAFE: u32 = 0x80000;
/// On a dylib, the static linker does not need to examine dependent dylibs to
/// see if any are re-exported.
pub const MH_NO_REEXPORTED_DYLIBS: u32 = 0x100000;
/// The OS will load the main executable at a random address; only used in
/// `MH_EXECUTE` filetypes.
pub const MH_PIE: u32 = 0x200000;
/// Only for use on dylibs: when linking against a dylib with this bit set,
/// the static linker will not create a load command for it if no symbols are
/// referenced from it.
pub const MH_DEAD_STRIPPABLE_DYLIB: u32 = 0x400000;
/// Contains a section of type `S_THREAD_LOCAL_VARIABLES`.
pub const MH_HAS_TLV_DESCRIPTORS: u32 = 0x800000;
/// The OS will run the main executable with a non-executable heap even on
/// platforms that do not require it; only used in `MH_EXECUTE` filetypes.
pub const MH_NO_HEAP_EXECUTION: u32 = 0x1000000;
/// The code was linked for use in an application extension.
///
/// This value has not been confirmed against the system headers.
pub const MH_APP_EXTENSION_SAFE: u32 = 0x2000000;

/// Magic number of a 32-bit header whose bytes are least significant first.
pub const MH_MAGIC: u32 = 0xfeedface;
/// Byte-swapped `MH_MAGIC`: a 32-bit header of a big-endian file.
pub const MH_CIGAM: u32 = 0xcefaedfe;
/// Magic number of a 64-bit header whose bytes are least significant first.
pub const MH_MAGIC_64: u32 = 0xfeedfacf;
/// Byte-swapped `MH_MAGIC_64`: a 64-bit header of a big-endian file.
pub const MH_CIGAM_64: u32 = 0xcffaedfe;

// Constants for the filetype field of the header.
/// Relocatable object file.
pub const MH_OBJECT: u32 = 0x1;
/// Demand paged executable file.
pub const MH_EXECUTE: u32 = 0x2;
/// Fixed VM shared library file.
pub const MH_FVMLIB: u32 = 0x3;
/// Core file.
pub const MH_CORE: u32 = 0x4;
/// Preloaded executable file.
pub const MH_PRELOAD: u32 = 0x5;
/// Dynamically bound shared library.
pub const MH_DYLIB: u32 = 0x6;
/// Dynamic link editor.
pub const MH_DYLINKER: u32 = 0x7;
/// Dynamically bound bundle file.
pub const MH_BUNDLE: u32 = 0x8;
/// Shared library stub for static linking only, no section contents.
pub const MH_DYLIB_STUB: u32 = 0x9;
/// Companion file with only debug sections.
pub const MH_DSYM: u32 = 0xa;
/// x86_64 kexts.
pub const MH_KEXT_BUNDLE: u32 = 0xb;

/// Byte length of the 32-bit header.
pub const SIZEOF_HEADER_32: usize = 0x1c;
/// Byte length of the 64-bit header.
pub const SIZEOF_HEADER_64: usize = 32;

// ---------------------------------------------------------------------------
// Reading integers out of bytes

/// The four bytes at `i`, least significant first.
pub open spec fn le_u32(b: Seq<u8>, i: int) -> u32 {
    (b[i] as int + b[i + 1] as int * 0x100 + b[i + 2] as int * 0x10000 + b[i + 3] as int
        * 0x1000000) as u32
}

/// The four bytes at `i`, most significant first.
pub open spec fn be_u32(b: Seq<u8>, i: int) -> u32 {
    (b[i + 3] as int + b[i + 2] as int * 0x100 + b[i + 1] as int * 0x10000 + b[i] as int
        * 0x1000000) as u32
}

/// The four bytes at `i` in the given byte order.
pub open spec fn u32_at(b: Seq<u8>, i: int, little: bool) -> u32 {
    if little {
        le_u32(b, i)
    } else {
        be_u32(b, i)
    }
}

/// Reads the four bytes at `i` in the given byte order.
fn read_u32(bytes: &[u8], i: usize, little: bool) -> (r: u32)
    requires
        i + 4 <= bytes.len(),
    ensures
        r == u32_at(bytes@, i as int, little),
{
    let b0 = bytes[i] as u32;
    let b1 = bytes[i + 1] as u32;
    let b2 = bytes[i + 2] as u32;
    let b3 = bytes[i + 3] as u32;
    if little {
        b0 + b1 * 0x100 + b2 * 0x10000 + b3 * 0x1000000
    } else {
        b3 + b2 * 0x100 + b1 * 0x10000 + b0 * 0x1000000
    }
}


// ---------------------------------------------------------------------------
// Names of flags and file types

/// The name of a single flag bit; `"UNKNOWN FLAG"` for any other value,
/// including zero and combinations of several bits.
pub open spec fn flag_name(flag: u32) -> Seq<char> {
    if flag == MH_NOUNDEFS {
        "MH_NOUNDEFS"@
    } else if flag == MH_INCRLINK {
        "MH_INCRLINK"@
    } else if flag == MH_DYLDLINK {
        "MH_DYLDLINK"@
    } else if flag == MH_BINDATLOAD {
        "MH_BINDATLOAD"@
    } else if flag == MH_PREBOUND {
        "MH_PREBOUND"@
    } else if flag == MH_SPLIT_SEGS {
        "MH_SPLIT_SEGS"@
    } else if flag == MH_LAZY_INIT {
        "MH_LAZY_INIT"@
    } else if flag == MH_TWOLEVEL {
        "MH_TWOLEVEL"@
    } else if flag == MH_FORCE_FLAT {
        "MH_FORCE_FLAT"@
    } else if flag == MH_NOMULTIDEFS {
        "MH_NOMULTIDEFS"@
    } else if flag == MH_NOFIXPREBINDING {
        "MH_NOFIXPREBINDING"@
    } else if flag == MH_PREBINDABLE {
        "MH_PREBINDABLE"@
    } else if flag == MH_ALLMODSBOUND {
        "MH_ALLMODSBOUND"@
    } else if flag == MH_SUBSECTIONS_VIA_SYMBOLS {
        "MH_SUBSECTIONS_VIA_SYMBOLS"@
    } else if flag == MH_CANONICAL {
        "MH_CANONICAL"@
    } else if flag == MH_WEAK_DEFINES {
        "MH_WEAK_DEFINES"@
    } else if flag == MH_BINDS_TO_WEAK {
        "MH_BINDS_TO_WEAK"@
    } else if flag == MH_ALLOW_STACK_EXECUTION {
        "MH_ALLOW_STACK_EXECUTION"@
    } else if flag == MH_ROOT_SAFE {
        "MH_ROOT_SAFE"@
    } else if flag == MH_SETUID_SAFE {
        "MH_SETUID_SAFE"@
    } else if flag == MH_NO_REEXPORTED_DYLIBS {
        "MH_NO_REEXPORTED_DYLIBS"@
    } else if flag == MH_PIE {
        "MH_PIE"@
    } else if flag == MH_DEAD_STRIPPABLE_DYLIB {
        "MH_DEAD_STRIPPABLE_DYLIB"@
    } else if flag == MH_HAS_TLV_DESCRIPTORS {
        "MH_HAS_TLV_DESCRIPTORS"@
    } else if flag == MH_NO_HEAP_EXECUTION {
        "MH_NO_HEAP_EXECUTION"@
    } else if flag == MH_APP_EXTENSION_SAFE {
        "MH_APP_EXTENSION_SAFE"@
    } else {
        "UNKNOWN FLAG"@
    }
}

/// Renders a single flag bit by name, `"UNKNOWN FLAG"` for any other value.
/// A combined mask is not decomposed: callers name one bit at a time.
pub fn flag_to_str(flag: u32) -> (r: &'static str)
    ensures
        r@ == flag_name(flag),
{
    if flag == MH_NOUNDEFS {
        "MH_NOUNDEFS"
    } else if flag == MH_INCRLINK {
        "MH_INCRLINK"
    } else if flag == MH_DYLDLINK {
        "MH_DYLDLINK"
    } else if flag == MH_BINDATLOAD {
        "MH_BINDATLOAD"
    } else if flag == MH_PREBOUND {
        "MH_PREBOUND"
    } else if flag == MH_SPLIT_SEGS {
        "MH_SPLIT_SEGS"
    } else if flag == MH_LAZY_INIT {
        "MH_LAZY_INIT"
    } else if flag == MH_TWOLEVEL {
        "MH_TWOLEVEL"
    } else if flag == MH_FORCE_FLAT {
        "MH_FORCE_FLAT"
    } else if flag == MH_NOMULTIDEFS {
        "MH_NOMULTIDEFS"
    } else if flag == MH_NOFIXPREBINDING {
        "MH_NOFIXPREBINDING"
    } else if flag == MH_PREBINDABLE {
        "MH_PREBINDABLE"
    } else if flag == MH_ALLMODSBOUND {
        "MH_ALLMODSBOUND"
    } else if flag == MH_SUBSECTIONS_VIA_SYMBOLS {
        "MH_SUBSECTIONS_VIA_SYMBOLS"
    } else if flag == MH_CANONICAL {
        "MH_CANONICAL"
    } else if flag == MH_WEAK_DEFINES {
        "MH_WEAK_DEFINES"
    } else if flag == MH_BINDS_TO_WEAK {
        "MH_BINDS_TO_WEAK"
    } else if flag == MH_ALLOW_STACK_EXECUTION {
        "MH_ALLOW_STACK_EXECUTION"
    } else if flag == MH_ROOT_SAFE {
        "MH_ROOT_SAFE"
    } else if flag == MH_SETUID_SAFE {
        "MH_SETUID_SAFE"
    } else if flag == MH_NO_REEXPORTED_DYLIBS {
        "MH_NO_REEXPORTED_DYLIBS"
    } else if flag == MH_PIE {
        "MH_PIE"
    } else if flag == MH_DEAD_STRIPPABLE_DYLIB {
        "MH_DEAD_STRIPPABLE_DYLIB"
    } else if flag == MH_HAS_TLV_DESCRIPTORS {
        "MH_HAS_TLV_DESCRIPTORS"
    } else if flag == MH_NO_HEAP_EXECUTION {
        "MH_NO_HEAP_EXECUTION"
    } else if flag == MH_APP_EXTENSION_SAFE {
        "MH_APP_EXTENSION_SAFE"
    } else {
        "UNKNOWN FLAG"
    }
}

/// The name of a file type code; `"UNKNOWN FILETYPE"` for any other value.
pub open spec fn filetype_name(filetype: u32) -> Seq<char> {
    if filetype == MH_OBJECT {
        "OBJECT"@
    } else if filetype == MH_EXECUTE {
        "EXECUTE"@
    } else if filetype == MH_FVMLIB {
        "FVMLIB"@
    } else if filetype == MH_CORE {
        "CORE"@
    } else if filetype == MH_PRELOAD {
        "PRELOAD"@
    } else if filetype == MH_DYLIB {
        "DYLIB"@
    } else if filetype == MH_DYLINKER {
        "DYLINKER"@
    } else if filetype == MH_BUNDLE {
        "BUNDLE"@
    } else if filetype == MH_DYLIB_STUB {
        "DYLIB_STUB"@
    } else if filetype == MH_DSYM {
        "DSYM"@
    } else if filetype == MH_KEXT_BUNDLE {
        "KEXT_BUNDLE"@
    } else {
        "UNKNOWN FILETYPE"@
    }
}

/// Renders a file type code by name, `"UNKNOWN FILETYPE"` for any other value.
pub fn filetype_to_str(filetype: u32) -> (r: &'static str)
    ensures
        r@ == filetype_name(filetype),
{
    if filetype == MH_OBJECT {
        "OBJECT"
    } else if filetype == MH_EXECUTE {
        "EXECUTE"
    } else if filetype == MH_FVMLIB {
        "FVMLIB"
    } else if filetype == MH_CORE {
        "CORE"
    } else if filetype == MH_PRELOAD {
        "PRELOAD"
    } else if filetype == MH_DYLIB {
        "DYLIB"
    } else if filetype == MH_DYLINKER {
        "DYLINKER"
    } else if filetype == MH_BUNDLE {
        "BUNDLE"
    } else if filetype == MH_DYLIB_STUB {
        "DYLIB_STUB"
    } else if filetype == MH_DSYM {
        "DSYM"
    } else if filetype == MH_KEXT_BUNDLE {
        "KEXT_BUNDLE"
    } else {
        "UNKNOWN FILETYPE"
    }
}


// ---------------------------------------------------------------------------
// The 32-bit layout

/// A 32-bit Mach-O header, as laid out on disk (`SIZEOF_HEADER_32` bytes).
#[derive(Clone, Copy, Default, Debug, PartialEq, Eq, Structural)]
pub struct Header32 {
    /// Mach magic number identifier.
    pub magic: u32,
    /// CPU specifier.
    pub cputype: u32,
    pub padding1: u8,
    pub padding2: u8,
    pub caps: u8,
    /// Machine specifier.
    pub cpusubtype: u8,
    /// Type of file.
    pub filetype: u32,
    /// Number of load commands.
    pub ncmds: u32,
    /// The size of all the load commands.
    pub sizeofcmds: u32,
    /// Flags.
    pub flags: u32,
}

impl Header32 {
    /// The 32-bit header laid out at `off` in `b`, its fields in the given
    /// byte order (the magic always least significant byte first).
    pub open spec fn parsed(b: Seq<u8>, off: int, little: bool) -> Header32 {
        Header32 {
            magic: le_u32(b, off),
            cputype: u32_at(b, off + 4, little),
            padding1: b[off + 8],
            padding2: b[off + 9],
            caps: b[off + 10],
            cpusubtype: b[off + 11],
            filetype: u32_at(b, off + 12, little),
            ncmds: u32_at(b, off + 16, little),
            sizeofcmds: u32_at(b, off + 20, little),
            flags: u32_at(b, off + 24, little),
        }
    }

    /// Reads the 32-bit header at `off`.
    pub fn read(bytes: &[u8], off: usize, little: bool) -> (r: Header32)
        requires
            off + SIZEOF_HEADER_32 <= bytes.len(),
        ensures
            r == Header32::parsed(bytes@, off as int, little),
    {
        Header32 {
            magic: read_u32(bytes, off, true),
            cputype: read_u32(bytes, off + 4, little),
            padding1: bytes[off + 8],
            padding2: bytes[off + 9],
            caps: bytes[off + 10],
            cpusubtype: bytes[off + 11],
            filetype: read_u32(bytes, off + 12, little),
            ncmds: read_u32(bytes, off + 16, little),
            sizeofcmds: read_u32(bytes, off + 20, little),
            flags: read_u32(bytes, off + 24, little),
        }
    }

    /// The header held by exactly `SIZEOF_HEADER_32` bytes, least significant
    /// byte first.
    pub fn from_bytes(bytes: &[u8; SIZEOF_HEADER_32]) -> (r: Header32)
        ensures
            r == Header32::parsed(bytes@, 0, true),
    {
        Header32::read(bytes.as_slice(), 0, true)
    }

    /// The byte length of this layout.
    pub fn size(&self) -> (r: usize)
        ensures
            r == SIZEOF_HEADER_32,
    {
        SIZEOF_HEADER_32
    }
}

// ---------------------------------------------------------------------------
// The 64-bit layout

/// A 64-bit Mach-O header, as laid out on disk (`SIZEOF_HEADER_64` bytes).
#[derive(Clone, Copy, Default, Debug, PartialEq, Eq, Structural)]
pub struct Header64 {
    /// Mach magic number identifier.
    pub magic: u32,
    /// CPU specifier.
    pub cputype: u32,
    /// Machine specifier.
    pub cpusubtype: u8,
    pub padding1: u8,
    pub padding2: u8,
    pub caps: u8,
    /// Type of file.
    pub filetype: u32,
    /// Number of load commands.
    pub ncmds: u32,
    /// The size of all the load commands.
    pub sizeofcmds: u32,
    /// Flags.
    pub flags: u32,
    /// Reserved word, present in this layout only.
    pub reserved: u32,
}

impl Header64 {
    /// The 64-bit header laid out at `off` in `b`, its fields in the given
    /// byte order (the magic always least significant byte first).
    pub open spec fn parsed(b: Seq<u8>, off: int, little: bool) -> Header64 {
        Header64 {
            magic: le_u32(b, off),
            cputype: u32_at(b, off + 4, little),
            cpusubtype: b[off + 8],
            padding1: b[off + 9],
            padding2: b[off + 10],
            caps: b[off + 11],
            filetype: u32_at(b, off + 12, little),
            ncmds: u32_at(b, off + 16, little),
            sizeofcmds: u32_at(b, off + 20, little),
            flags: u32_at(b, off + 24, little),
            reserved: u32_at(b, off + 28, little),
        }
    }

    /// Reads the 64-bit header at `off`.
    pub fn read(bytes: &[u8], off: usize, little: bool) -> (r: Header64)
        requires
            off + SIZEOF_HEADER_64 <= bytes.len(),
        ensures
            r == Header64::parsed(bytes@, off as int, little),
    {
        Header64 {
            magic: read_u32(bytes, off, true),
            cputype: read_u32(bytes, off + 4, little),
            cpusubtype: bytes[off + 8],
            padding1: bytes[off + 9],
            padding2: bytes[off + 10],
            caps: bytes[off + 11],
            filetype: read_u32(bytes, off + 12, little),
            ncmds: read_u32(bytes, off + 16, little),
            sizeofcmds: read_u32(bytes, off + 20, little),
            flags: read_u32(bytes, off + 24, little),
            reserved: read_u32(bytes, off + 28, little),
        }
    }

    /// The header held by exactly `SIZEOF_HEADER_64` bytes, least significant
    /// byte first.
    pub fn from_bytes(bytes: &[u8; SIZEOF_HEADER_64]) -> (r: Header64)
        ensures
            r == Header64::parsed(bytes@, 0, true),
    {
        Header64::read(bytes.as_slice(), 0, true)
    }

    /// The byte length of this layout.
    pub fn size(&self) -> (r: usize)
        ensures
            r == SIZEOF_HEADER_64,
    {
        SIZEOF_HEADER_64
    }
}


// ---------------------------------------------------------------------------
// Classifying the magic

/// Whether `m` is one of the four recognised magic numbers.
pub open spec fn is_known_magic(m: u32) -> bool {
    m == MH_MAGIC || m == MH_CIGAM || m == MH_MAGIC_64 || m == MH_CIGAM_64
}

/// Whether a header whose magic reads `m` stores its fields least
/// significant byte first.
pub open spec fn magic_is_little(m: u32) -> bool {
    m == MH_MAGIC || m == MH_MAGIC_64
}

/// The layout that the magic `m` selects: 64-bit for the two 64-bit magics,
/// 32-bit otherwise.
pub open spec fn magic_container(m: u32) -> Container {
    if m == MH_MAGIC_64 || m == MH_CIGAM_64 {
        Container::Wide
    } else {
        Container::Narrow
    }
}

/// The byte length of the header layout of a word size.
pub open spec fn container_size(c: Container) -> usize {
    match c {
        Container::Narrow => SIZEOF_HEADER_32,
        Container::Wide => SIZEOF_HEADER_64,
    }
}

/// The context that the magic `m` describes.
pub open spec fn magic_ctx(m: u32) -> Ctx {
    Ctx {
        container: magic_container(m),
        le: if magic_is_little(m) {
            Endian::Little
        } else {
            Endian::Big
        },
    }
}

// ---------------------------------------------------------------------------
// The unified header

/// A header of either word size, normalised after decoding.
#[derive(Clone, Copy, Default, Debug, PartialEq, Eq, Structural)]
pub struct Header {
    pub magic: u32,
    pub cputype: u32,
    pub cpusubtype: u8,
    pub padding1: u8,
    pub padding2: u8,
    pub caps: u8,
    /// Type of file.
    pub filetype: u32,
    /// Number of load commands.
    pub ncmds: usize,
    /// The size of all the load commands.
    pub sizeofcmds: u32,
    /// Flags.
    pub flags: u32,
    /// Reserved word of the 64-bit layout; zero for a 32-bit header.
    pub reserved: u32,
}

impl Header {
    /// The normalised form of a 32-bit header.
    pub open spec fn from32(h: Header32) -> Header {
        Header {
            magic: h.magic,
            cputype: h.cputype,
            cpusubtype: h.cpusubtype,
            padding1: h.padding1,
            padding2: h.padding2,
            caps: h.caps,
            filetype: h.filetype,
            ncmds: h.ncmds as usize,
            sizeofcmds: h.sizeofcmds,
            flags: h.flags,
            reserved: 0,
        }
    }

    /// The normalised form of a 64-bit header.
    pub open spec fn from64(h: Header64) -> Header {
        Header {
            magic: h.magic,
            cputype: h.cputype,
            cpusubtype: h.cpusubtype,
            padding1: h.padding1,
            padding2: h.padding2,
            caps: h.caps,
            filetype: h.filetype,
            ncmds: h.ncmds as usize,
            sizeofcmds: h.sizeofcmds,
            flags: h.flags,
            reserved: h.reserved,
        }
    }

    /// Whether a buffer of `len` bytes is too short to hold a header of
    /// either word size at `off`.
    pub open spec fn too_short(len: int, off: int) -> bool {
        off > len || len - off < SIZEOF_HEADER_64
    }

    /// The header decoded from `b` at `off`, given that its magic is
    /// recognised: the layout and byte order that the magic selects.
    pub open spec fn decoded(b: Seq<u8>, off: int) -> Header {
        let m = le_u32(b, off);
        if magic_container(m) == Container::Wide {
            Header::from64(Header64::parsed(b, off, magic_is_little(m)))
        } else {
            Header::from32(Header32::parsed(b, off, magic_is_little(m)))
        }
    }

    /// Whether the fields are stored least significant byte first, as the
    /// magic tells.
    pub fn is_little_endian(&self) -> (r: bool)
        ensures
            r == magic_is_little(self.magic),
    {
        self.magic == MH_MAGIC || self.magic == MH_MAGIC_64
    }

    /// The word size of the layout, as the magic tells.
    pub fn container(&self) -> (r: Container)
        ensures
            r == magic_container(self.magic),
    {
        if self.magic == MH_MAGIC_64 || self.magic == MH_CIGAM_64 {
            Container::Wide
        } else {
            Container::Narrow
        }
    }

    /// The byte length of this header's layout, where the next structure
    /// begins.
    pub fn size(&self) -> (r: usize)
        ensures
            r == container_size(magic_container(self.magic)),
    {
        let c = self.container();
        Header::size_with(&c)
    }

    /// The context that the stored magic describes; `BadMagic` when the magic
    /// is none of the recognised four.
    pub fn ctx(&self) -> (r: Result<Ctx, Error>)
        ensures
            is_known_magic(self.magic) ==> r == Ok::<Ctx, Error>(magic_ctx(self.magic)),
            !is_known_magic(self.magic) ==> r == Err::<Ctx, Error>(
                Error::BadMagic(self.magic as u64),
            ),
    {
        if self.magic == MH_MAGIC || self.magic == MH_CIGAM || self.magic == MH_MAGIC_64
            || self.magic == MH_CIGAM_64 {
            let le = Endian::from_bool(self.is_little_endian());
            let container = self.container();
            Ok(Ctx::new(container, le))
        } else {
            Err(Error::BadMagic(self.magic as u64))
        }
    }

    /// The byte length of the header layout of a word size.
    pub fn size_with(container: &Container) -> (r: usize)
        ensures
            r == container_size(*container),
    {
        match container {
            Container::Narrow => SIZEOF_HEADER_32,
            Container::Wide => SIZEOF_HEADER_64,
        }
    }

    /// Decodes the header at `offset` of `bytes`.
    ///
    /// Fails with `Malformed` when fewer than `SIZEOF_HEADER_64` bytes follow
    /// `offset`, before the magic is looked at; with `BadMagic` when the magic
    /// is none of the recognised four, carrying its four bytes read most
    /// significant first. Otherwise
    /// reads the layout and byte order that the magic selects.
    pub fn try_from_ctx(bytes: &[u8], offset: usize) -> (r: Result<Header, Error>)
        ensures
            Header::too_short(bytes@.len() as int, offset as int) ==> (r matches Err(e)
                && e.is_malformed()),
            !Header::too_short(bytes@.len() as int, offset as int) && !is_known_magic(
                le_u32(bytes@, offset as int),
            ) ==> r == Err::<Header, Error>(
                Error::BadMagic(be_u32(bytes@, offset as int) as u64),
            ),
            !Header::too_short(bytes@.len() as int, offset as int) && is_known_magic(
                le_u32(bytes@, offset as int),
            ) ==> r == Ok::<Header, Error>(Header::decoded(bytes@, offset as int)),
    {
        let len = bytes.len();
        if offset > len || len - offset < SIZEOF_HEADER_64 {
            return Err(Error::Malformed(String::from_str("bytes size is smaller than a Mach-o header")));
        }
        let magic = read_u32(bytes, offset, true);
        if magic == MH_MAGIC || magic == MH_CIGAM || magic == MH_MAGIC_64 || magic == MH_CIGAM_64 {
            let is_lsb = magic == MH_MAGIC || magic == MH_MAGIC_64;
            if magic == MH_MAGIC_64 || magic == MH_CIGAM_64 {
                Ok(Header::from(Header64::read(bytes, offset, is_lsb)))
            } else {
                Ok(Header::from(Header32::read(bytes, offset, is_lsb)))
            }
        } else {
            Err(Error::BadMagic(read_u32(bytes, offset, false) as u64))
        }
    }
}

impl From<Header32> for Header {
    fn from(header: Header32) -> (r: Header) {
        Header {
            magic: header.magic,
            cputype: header.cputype,
            cpusubtype: header.cpusubtype,
            padding1: header.padding1,
            padding2: header.padding2,
            caps: header.caps,
            filetype: header.filetype,
            ncmds: header.ncmds as usize,
            sizeofcmds: header.sizeofcmds,
            flags: header.flags,
            reserved: 0,
        }
    }
}

impl vstd::std_specs::convert::FromSpecImpl<Header32> for Header {
    open spec fn obeys_from_spec() -> bool {
        true
    }

    open spec fn from_spec(v: Header32) -> Header {
        Header::from32(v)
    }
}

impl From<Header64> for Header {
    fn from(header: Header64) -> (r: Header) {
        Header {
            magic: header.magic,
            cputype: header.cputype,
            cpusubtype: header.cpusubtype,
            padding1: header.padding1,
            padding2: header.padding2,
            caps: header.caps,
            filetype: header.filetype,
            ncmds: header.ncmds as usize,
            sizeofcmds: header.sizeofcmds,
            flags: header.flags,
            reserved: header.reserved,
        }
    }
}

impl vstd::std_specs::convert::FromSpecImpl<Header64> for Header {
    open spec fn obeys_from_spec() -> bool {
        true
    }

    open spec fn from_spec(v: Header64) -> Header {
        Header::from64(v)
    }
}


// ---------------------------------------------------------------------------
// Laws

/// Whether `flag` is one of the named single flag bits.
pub open spec fn is_known_flag(flag: u32) -> bool {
    flag == MH_NOUNDEFS
        || flag == MH_INCRLINK
        || flag == MH_DYLDLINK
        || flag == MH_BINDATLOAD
        || flag == MH_PREBOUND
        || flag == MH_SPLIT_SEGS
        || flag == MH_LAZY_INIT
        || flag == MH_TWOLEVEL
        || flag == MH_FORCE_FLAT
        || flag == MH_NOMULTIDEFS
        || flag == MH_NOFIXPREBINDING
        || flag == MH_PREBINDABLE
        || flag == MH_ALLMODSBOUND
        || flag == MH_SUBSECTIONS_VIA_SYMBOLS
        || flag == MH_CANONICAL
        || flag == MH_WEAK_DEFINES
        || flag == MH_BINDS_TO_WEAK
        || flag == MH_ALLOW_STACK_EXECUTION
        || flag == MH_ROOT_SAFE
        || flag == MH_SETUID_SAFE
        || flag == MH_NO_REEXPORTED_DYLIBS
        || flag == MH_PIE
        || flag == MH_DEAD_STRIPPABLE_DYLIB
        || flag == MH_HAS_TLV_DESCRIPTORS
        || flag == MH_NO_HEAP_EXECUTION
        || flag == MH_APP_EXTENSION_SAFE
}

/// Two different named flag bits are rendered by different names, and each
/// name differs from the marker given to all other values, so an unknown
/// value is always told apart.
pub proof fn lemma_flag_names_distinct(a: u32, b: u32)
    requires
        is_known_flag(a),
        is_known_flag(b),
        a != b,
    ensures
        flag_name(a) != flag_name(b),
        flag_name(a) != "UNKNOWN FLAG"@,
{
    reveal_strlit("UNKNOWN FLAG");
    reveal_strlit("MH_NOUNDEFS");
    reveal_strlit("MH_INCRLINK");
    reveal_strlit("MH_DYLDLINK");
    reveal_strlit("MH_BINDATLOAD");
    reveal_strlit("MH_PREBOUND");
    reveal_strlit("MH_SPLIT_SEGS");
    reveal_strlit("MH_LAZY_INIT");
    reveal_strlit("MH_TWOLEVEL");
    reveal_strlit("MH_FORCE_FLAT");
    reveal_strlit("MH_NOMULTIDEFS");
    reveal_strlit("MH_NOFIXPREBINDING");
    reveal_strlit("MH_PREBINDABLE");
    reveal_strlit("MH_ALLMODSBOUND");
    reveal_strlit("MH_SUBSECTIONS_VIA_SYMBOLS");
    reveal_strlit("MH_CANONICAL");
    reveal_strlit("MH_WEAK_DEFINES");
    reveal_strlit("MH_BINDS_TO_WEAK");
    reveal_strlit("MH_ALLOW_STACK_EXECUTION");
    reveal_strlit("MH_ROOT_SAFE");
    reveal_strlit("MH_SETUID_SAFE");
    reveal_strlit("MH_NO_REEXPORTED_DYLIBS");
    reveal_strlit("MH_PIE");
    reveal_strlit("MH_DEAD_STRIPPABLE_DYLIB");
    reveal_strlit("MH_HAS_TLV_DESCRIPTORS");
    reveal_strlit("MH_NO_HEAP_EXECUTION");
    reveal_strlit("MH_APP_EXTENSION_SAFE");
    assert(flag_name(a)[0] == 'M');
    if a == MH_NOUNDEFS {
        assert(flag_name(a) == "MH_NOUNDEFS"@);
        assert(flag_name(b).len() != 11 || flag_name(b)[3] != 'N');
    } else if a == MH_INCRLINK {
        assert(flag_name(a) == "MH_INCRLINK"@);
        assert(flag_name(b).len() != 11 || flag_name(b)[3] != 'I');
    } else if a == MH_DYLDLINK {
        assert(flag_name(a) == "MH_DYLDLINK"@);
        assert(flag_name(b).len() != 11 || flag_name(b)[3] != 'D');
    } else if a == MH_BINDATLOAD {
        assert(flag_name(a) == "MH_BINDATLOAD"@);
        assert(flag_name(b).len() != 13 || flag_name(b)[3] != 'B');
    } else if a == MH_PREBOUND {
        assert(flag_name(a) == "MH_PREBOUND"@);
        assert(flag_name(b).len() != 11 || flag_name(b)[3] != 'P');
    } else if a == MH_SPLIT_SEGS {
        assert(flag_name(a) == "MH_SPLIT_SEGS"@);
        assert(flag_name(b).len() != 13 || flag_name(b)[3] != 'S');
    } else if a == MH_LAZY_INIT {
        assert(flag_name(a) == "MH_LAZY_INIT"@);
        assert(flag_name(b).len() != 12 || flag_name(b)[3] != 'L');
    } else if a == MH_TWOLEVEL {
        assert(flag_name(a) == "MH_TWOLEVEL"@);
        assert(flag_name(b).len() != 11 || flag_name(b)[3] != 'T');
    } else if a == MH_FORCE_FLAT {
        assert(flag_name(a) == "MH_FORCE_FLAT"@);
        assert(flag_name(b).len() != 13 || flag_name(b)[3] != 'F');
    } else if a == MH_NOMULTIDEFS {
        assert(flag_name(a) == "MH_NOMULTIDEFS"@);
        assert(flag_name(b).len() != 14 || flag_name(b)[3] != 'N');
    } else if a == MH_NOFIXPREBINDING {
        assert(flag_name(a) == "MH_NOFIXPREBINDING"@);
        assert(flag_name(b).len() != 18 || flag_name(b)[3] != 'N');
    } else if a == MH_PREBINDABLE {
        assert(flag_name(a) == "MH_PREBINDABLE"@);
        assert(flag_name(b).len() != 14 || flag_name(b)[3] != 'P');
    } else if a == MH_ALLMODSBOUND {
        assert(flag_name(a) == "MH_ALLMODSBOUND"@);
        assert(flag_name(b).len() != 15 || flag_name(b)[3] != 'A');
    } else if a == MH_SUBSECTIONS_VIA_SYMBOLS {
        assert(flag_name(a) == "MH_SUBSECTIONS_VIA_SYMBOLS"@);
        assert(flag_name(b).len() != 26 || flag_name(b)[3] != 'S');
    } else if a == MH_CANONICAL {
        assert(flag_name(a) == "MH_CANONICAL"@);
        assert(flag_name(b).len() != 12 || flag_name(b)[3] != 'C');
    } else if a == MH_WEAK_DEFINES {
        assert(flag_name(a) == "MH_WEAK_DEFINES"@);
        assert(flag_name(b).len() != 15 || flag_name(b)[3] != 'W');
    } else if a == MH_BINDS_TO_WEAK {
        assert(flag_name(a) == "MH_BINDS_TO_WEAK"@);
        assert(flag_name(b).len() != 16 || flag_name(b)[3] != 'B');
    } else if a == MH_ALLOW_STACK_EXECUTION {
        assert(flag_name(a) == "MH_ALLOW_STACK_EXECUTION"@);
        assert(flag_name(b).len() != 24 || flag_name(b)[3] != 'A');
    } else if a == MH_ROOT_SAFE {
        assert(flag_name(a) == "MH_ROOT_SAFE"@);
        assert(flag_name(b).len() != 12 || flag_name(b)[3] != 'R');
    } else if a == MH_SETUID_SAFE {
        assert(flag_name(a) == "MH_SETUID_SAFE"@);
        assert(flag_name(b).len() != 14 || flag_name(b)[3] != 'S');
    } else if a == MH_NO_REEXPORTED_DYLIBS {
        assert(flag_name(a) == "MH_NO_REEXPORTED_DYLIBS"@);
        assert(flag_name(b).len() != 23 || flag_name(b)[3] != 'N');
    } else if a == MH_PIE {
        assert(flag_name(a) == "MH_PIE"@);
        assert(flag_name(b).len() != 6 || flag_name(b)[3] != 'P');
    } else if a == MH_DEAD_STRIPPABLE_DYLIB {
        assert(flag_name(a) == "MH_DEAD_STRIPPABLE_DYLIB"@);
        assert(flag_name(b).len() != 24 || flag_name(b)[3] != 'D');
    } else if a == MH_HAS_TLV_DESCRIPTORS {
        assert(flag_name(a) == "MH_HAS_TLV_DESCRIPTORS"@);
        assert(flag_name(b).len() != 22 || flag_name(b)[3] != 'H');
    } else if a == MH_NO_HEAP_EXECUTION {
        assert(flag_name(a) == "MH_NO_HEAP_EXECUTION"@);
        assert(flag_name(b).len() != 20 || flag_name(b)[3] != 'N');
    } else if a == MH_APP_EXTENSION_SAFE {
        assert(flag_name(a) == "MH_APP_EXTENSION_SAFE"@);
        assert(flag_name(b).len() != 21 || flag_name(b)[3] != 'A');
    }
}

/// The four bytes of `v`, most significant first.
pub open spec fn be_bytes(v: u32) -> Seq<u8> {
    seq![
        (v / 0x1000000) as u8,
        ((v / 0x10000) % 0x100) as u8,
        ((v / 0x100) % 0x100) as u8,
        (v % 0x100) as u8,
    ]
}

/// Reading back the four bytes of `v` most significant first gives `v`.
pub proof fn lemma_be_bytes_round_trip(b: Seq<u8>, off: int, v: u32)
    requires
        0 <= off,
        off + 4 <= b.len(),
        b.subrange(off, off + 4) == be_bytes(v),
    ensures
        be_u32(b, off) == v,
{
    assert(b[off] == be_bytes(v)[0]);
    assert(b[off + 1] == be_bytes(v)[1]);
    assert(b[off + 2] == be_bytes(v)[2]);
    assert(b[off + 3] == be_bytes(v)[3]);
    let x = v as int;
    assert(x == x % 0x100 + ((x / 0x100) % 0x100) * 0x100 + ((x / 0x10000) % 0x100) * 0x10000
        + (x / 0x1000000) * 0x1000000) by (nonlinear_arith)
        requires
            0 <= x < 0x100000000,
    ;
}

/// The recognised magics come in byte-swapped pairs, so four bytes that read
/// as a recognised magic in one order read as one in the other order too.
pub proof fn lemma_known_magic_either_order(b: Seq<u8>, off: int)
    requires
        0 <= off,
        off + 4 <= b.len(),
    ensures
        is_known_magic(le_u32(b, off)) <==> is_known_magic(be_u32(b, off)),
{
    let b0 = b[off] as int;
    let b1 = b[off + 1] as int;
    let b2 = b[off + 2] as int;
    let b3 = b[off + 3] as int;
    let x = b0 + b1 * 0x100 + b2 * 0x10000 + b3 * 0x1000000;
    let y = b3 + b2 * 0x100 + b1 * 0x10000 + b0 * 0x1000000;
    assert(le_u32(b, off) as int == x);
    assert(be_u32(b, off) as int == y);
    if x == MH_MAGIC as int {
        assert(b0 == 0xce && b1 == 0xfa && b2 == 0xed && b3 == 0xfe);
    }
    if x == MH_CIGAM as int {
        assert(b0 == 0xfe && b1 == 0xed && b2 == 0xfa && b3 == 0xce);
    }
    if x == MH_MAGIC_64 as int {
        assert(b0 == 0xcf && b1 == 0xfa && b2 == 0xed && b3 == 0xfe);
    }
    if x == MH_CIGAM_64 as int {
        assert(b0 == 0xfe && b1 == 0xed && b2 == 0xfa && b3 == 0xcf);
    }
    if y == MH_MAGIC as int {
        assert(b3 == 0xce && b2 == 0xfa && b1 == 0xed && b0 == 0xfe);
    }
    if y == MH_CIGAM as int {
        assert(b3 == 0xfe && b2 == 0xed && b1 == 0xfa && b0 == 0xce);
    }
    if y == MH_MAGIC_64 as int {
        assert(b3 == 0xcf && b2 == 0xfa && b1 == 0xed && b0 == 0xfe);
    }
    if y == MH_CIGAM_64 as int {
        assert(b3 == 0xfe && b2 == 0xed && b1 == 0xfa && b0 == 0xcf);
    }
}

/// A header whose leading four bytes are one of the recognised magics, with a
/// header's worth of bytes from `off`, decodes; the decoded header reports the
/// byte order and word size that the magic names, and its size is the fixed
/// size of the layout that was read.
pub proof fn lemma_decode_known_magic(b: Seq<u8>, off: int)
    requires
        0 <= off,
        off + SIZEOF_HEADER_64 <= b.len(),
        is_known_magic(le_u32(b, off)),
    ensures
        !Header::too_short(b.len() as int, off),
        Header::decoded(b, off).magic == le_u32(b, off),
        magic_is_little(Header::decoded(b, off).magic) == (le_u32(b, off) == MH_MAGIC
            || le_u32(b, off) == MH_MAGIC_64),
        magic_container(Header::decoded(b, off).magic) == (if le_u32(b, off) == MH_MAGIC_64
            || le_u32(b, off) == MH_CIGAM_64 {
            Container::Wide
        } else {
            Container::Narrow
        }),
        container_size(magic_container(Header::decoded(b, off).magic)) == (if le_u32(b, off)
            == MH_MAGIC_64 || le_u32(b, off) == MH_CIGAM_64 {
            SIZEOF_HEADER_64
        } else {
            SIZEOF_HEADER_32
        }),
{
}

/// A buffer shorter than the 32-bit header is too short to decode, whatever
/// it holds and wherever decoding starts.
pub proof fn lemma_short_buffer_malformed(b: Seq<u8>, off: int)
    requires
        b.len() < SIZEOF_HEADER_32,
        0 <= off,
    ensures
        Header::too_short(b.len() as int, off),
{
}

/// Four bytes that spell, most significant first, a value other than the
/// four magics, with a header's worth of bytes from `off`, are refused as a
/// bad magic carrying exactly that value.
pub proof fn lemma_bad_magic_carries_value(b: Seq<u8>, off: int, v: u32)
    requires
        0 <= off,
        off + SIZEOF_HEADER_64 <= b.len(),
        b.subrange(off, off + 4) == be_bytes(v),
        !is_known_magic(v),
    ensures
        !Header::too_short(b.len() as int, off),
        !is_known_magic(le_u32(b, off)),
        be_u32(b, off) as u64 == v as u64,
{
    lemma_be_bytes_round_trip(b, off, v);
    lemma_known_magic_either_order(b, off);
}

/// The header size for the context that a recognised magic describes is the
/// fixed size of the layout that this magic selects: 28 bytes for the 32-bit
/// magics, 32 for the 64-bit ones.
pub proof fn lemma_size_with_ctx(m: u32)
    requires
        is_known_magic(m),
    ensures
        container_size(magic_ctx(m).container) == (if m == MH_MAGIC_64 || m == MH_CIGAM_64 {
            SIZEOF_HEADER_64
        } else {
            SIZEOF_HEADER_32
        }),
        m == MH_MAGIC || m == MH_CIGAM ==> container_size(magic_ctx(m).container) == 28,
        m == MH_MAGIC_64 || m == MH_CIGAM_64 ==> container_size(magic_ctx(m).container) == 32,
{
}

} // verus!
