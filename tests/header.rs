use goblin::header::{
    filetype_to_str, flag_to_str, MH_APP_EXTENSION_SAFE, MH_CIGAM, MH_CIGAM_64, MH_DYLDLINK,
    MH_EXECUTE, MH_KEXT_BUNDLE, MH_MAGIC, MH_MAGIC_64, MH_NOUNDEFS, MH_PIE, MH_PREBINDABLE,
    MH_TWOLEVEL, SIZEOF_HEADER_32, SIZEOF_HEADER_64,
};
use goblin::{Container, Ctx, Endian, Error, Header, Header32, Header64};

/// A little-endian 64-bit header followed by four bytes of something else.
fn le64() -> Vec<u8> {
    let mut b = Vec::new();
    b.extend_from_slice(&MH_MAGIC_64.to_le_bytes());
    b.extend_from_slice(&0x0100_0007u32.to_le_bytes());
    b.extend_from_slice(&[3, 0, 0, 0x80]);
    b.extend_from_slice(&MH_EXECUTE.to_le_bytes());
    b.extend_from_slice(&16u32.to_le_bytes());
    b.extend_from_slice(&1376u32.to_le_bytes());
    b.extend_from_slice(&0x0020_0085u32.to_le_bytes());
    b.extend_from_slice(&0xdeadu32.to_le_bytes());
    b.extend_from_slice(&[9, 9, 9, 9]);
    b
}

/// A big-endian 32-bit header padded to the size of the 64-bit one.
fn be32() -> Vec<u8> {
    let mut b = Vec::new();
    b.extend_from_slice(&MH_MAGIC.to_be_bytes());
    b.extend_from_slice(&18u32.to_be_bytes());
    b.extend_from_slice(&[1, 2, 3, 4]);
    b.extend_from_slice(&6u32.to_be_bytes());
    b.extend_from_slice(&12u32.to_be_bytes());
    b.extend_from_slice(&0x500u32.to_be_bytes());
    b.extend_from_slice(&0x85u32.to_be_bytes());
    b.extend_from_slice(&[0xaa, 0xbb, 0xcc, 0xdd]);
    b
}

#[test]
fn decode_little_endian_64() {
    let h = Header::try_from_ctx(&le64(), 0).unwrap();
    assert_eq!(h.magic, MH_MAGIC_64);
    assert_eq!(h.cputype, 0x0100_0007);
    assert_eq!(h.cpusubtype, 3);
    assert_eq!(h.padding1, 0);
    assert_eq!(h.padding2, 0);
    assert_eq!(h.caps, 0x80);
    assert_eq!(h.filetype, MH_EXECUTE);
    assert_eq!(h.ncmds, 16);
    assert_eq!(h.sizeofcmds, 1376);
    assert_eq!(h.flags, 0x0020_0085);
    assert_eq!(h.reserved, 0xdead);
    assert!(h.is_little_endian());
    assert_eq!(h.container(), Container::Wide);
    assert_eq!(h.size(), 32);
    assert_eq!(h.ctx().unwrap(), Ctx::new(Container::Wide, Endian::Little));
}

#[test]
fn decode_big_endian_32() {
    let h = Header::try_from_ctx(&be32(), 0).unwrap();
    assert_eq!(h.magic, MH_CIGAM);
    assert_eq!(h.cputype, 18);
    assert_eq!(h.padding1, 1);
    assert_eq!(h.padding2, 2);
    assert_eq!(h.caps, 3);
    assert_eq!(h.cpusubtype, 4);
    assert_eq!(h.filetype, 6);
    assert_eq!(h.ncmds, 12);
    assert_eq!(h.sizeofcmds, 0x500);
    assert_eq!(h.flags, 0x85);
    assert_eq!(h.reserved, 0);
    assert!(!h.is_little_endian());
    assert_eq!(h.container(), Container::Narrow);
    assert_eq!(h.size(), 28);
    assert_eq!(h.ctx().unwrap(), Ctx::new(Container::Narrow, Endian::Big));
}

#[test]
fn decode_each_magic_classifies() {
    let cases = [
        (MH_MAGIC, true, Container::Narrow),
        (MH_CIGAM, false, Container::Narrow),
        (MH_MAGIC_64, true, Container::Wide),
        (MH_CIGAM_64, false, Container::Wide),
    ];
    for (magic, little, container) in cases {
        let mut b = vec![0u8; SIZEOF_HEADER_64];
        b[..4].copy_from_slice(&magic.to_le_bytes());
        let h = Header::try_from_ctx(&b, 0).unwrap();
        assert_eq!(h.magic, magic);
        assert_eq!(h.is_little_endian(), little);
        assert_eq!(h.container(), container);
    }
}

#[test]
fn decode_at_offset() {
    let mut b = vec![0xffu8; 5];
    b.extend_from_slice(&le64());
    let h = Header::try_from_ctx(&b, 5).unwrap();
    assert_eq!(h.ncmds, 16);
    assert_eq!(h.reserved, 0xdead);
}

#[test]
fn decode_short_buffer_is_malformed() {
    for n in 0..SIZEOF_HEADER_32 {
        let b = vec![0u8; n];
        assert!(matches!(Header::try_from_ctx(&b, 0), Err(Error::Malformed(_))));
    }
    let short = &le64()[..27];
    assert!(matches!(Header::try_from_ctx(short, 0), Err(Error::Malformed(_))));
    // a 32-bit magic with only its own 28 bytes still falls short
    let b = &be32()[..28];
    assert!(matches!(Header::try_from_ctx(b, 0), Err(Error::Malformed(_))));
    // the bytes after the offset are what counts
    assert!(matches!(Header::try_from_ctx(&le64(), 8), Err(Error::Malformed(_))));
    assert!(matches!(Header::try_from_ctx(&le64(), 100), Err(Error::Malformed(_))));
}

#[test]
fn decode_bad_magic_carries_value() {
    for v in [0u32, 0x7f45_4c46, 0xcafe_babe, 0xfeed_facd, 0xffff_ffff] {
        let mut b = vec![0u8; SIZEOF_HEADER_64];
        b[..4].copy_from_slice(&v.to_be_bytes());
        match Header::try_from_ctx(&b, 0) {
            Err(Error::BadMagic(m)) => assert_eq!(m, v as u64),
            other => panic!("expected a bad magic, got {:?}", other),
        }
    }
    let mut b = vec![0u8; SIZEOF_HEADER_64];
    b[..4].copy_from_slice(&[0, 0, 0, 1]);
    assert!(matches!(Header::try_from_ctx(&b, 0), Err(Error::BadMagic(1))));
    b[..4].copy_from_slice(&[0x7f, 0x45, 0x4c, 0x46]);
    assert!(matches!(Header::try_from_ctx(&b, 0), Err(Error::BadMagic(0x7f45_4c46))));
}

#[test]
fn size_with_context_of_each_magic() {
    for (magic, size) in [(MH_MAGIC, 28), (MH_CIGAM, 28), (MH_MAGIC_64, 32), (MH_CIGAM_64, 32)] {
        let h = Header { magic, ..Header::default() };
        let c = h.ctx().unwrap();
        assert_eq!(Header::size_with(&c.container), size);
        assert_eq!(h.size(), size);
    }
    assert_eq!(Header::size_with(&Container::Narrow), SIZEOF_HEADER_32);
    assert_eq!(Header::size_with(&Container::Wide), SIZEOF_HEADER_64);
}

#[test]
fn ctx_of_unknown_magic_fails() {
    let h = Header { magic: 0x1234_5678, ..Header::default() };
    assert!(matches!(h.ctx(), Err(Error::BadMagic(0x1234_5678))));
    assert!(!h.is_little_endian());
    assert_eq!(h.container(), Container::Narrow);
}

#[test]
fn fixed_layouts_from_bytes() {
    let b64 = le64();
    let mut a64 = [0u8; SIZEOF_HEADER_64];
    a64.copy_from_slice(&b64[..32]);
    let h64 = Header64::from_bytes(&a64);
    assert_eq!(h64.magic, MH_MAGIC_64);
    assert_eq!(h64.filetype, MH_EXECUTE);
    assert_eq!(h64.reserved, 0xdead);
    assert_eq!(h64.size(), 32);
    let u = Header::from(h64);
    assert_eq!(u.ncmds, 16);
    assert_eq!(u.reserved, 0xdead);

    let mut a32 = [0u8; SIZEOF_HEADER_32];
    a32.copy_from_slice(&b64[..28]);
    a32[..4].copy_from_slice(&MH_MAGIC.to_le_bytes());
    let h32 = Header32::from_bytes(&a32);
    assert_eq!(h32.magic, MH_MAGIC);
    assert_eq!(h32.padding1, 3);
    assert_eq!(h32.cpusubtype, 0x80);
    assert_eq!(h32.flags, 0x0020_0085);
    assert_eq!(h32.size(), 28);
    let u = Header::from(h32);
    assert_eq!(u.flags, 0x0020_0085);
    assert_eq!(u.reserved, 0);
}

#[test]
fn flag_names() {
    assert_eq!(flag_to_str(MH_NOUNDEFS), "MH_NOUNDEFS");
    assert_eq!(flag_to_str(MH_DYLDLINK), "MH_DYLDLINK");
    assert_eq!(flag_to_str(MH_TWOLEVEL), "MH_TWOLEVEL");
    assert_eq!(flag_to_str(MH_PREBINDABLE), "MH_PREBINDABLE");
    assert_eq!(flag_to_str(MH_PIE), "MH_PIE");
    assert_eq!(flag_to_str(0x2000), "MH_SUBSECTIONS_VIA_SYMBOLS");
    assert_eq!(flag_to_str(MH_APP_EXTENSION_SAFE), "MH_APP_EXTENSION_SAFE");
    assert_eq!(flag_to_str(0x0200_0000), "MH_APP_EXTENSION_SAFE");
}

#[test]
fn flag_names_unknown() {
    assert_eq!(flag_to_str(0), "UNKNOWN FLAG");
    assert_eq!(flag_to_str(MH_NOUNDEFS | MH_DYLDLINK), "UNKNOWN FLAG");
    assert_eq!(flag_to_str(0x0400_0000), "UNKNOWN FLAG");
    assert_eq!(flag_to_str(u32::MAX), "UNKNOWN FLAG");
    for bit in 0..26 {
        assert_ne!(flag_to_str(1u32 << bit), "UNKNOWN FLAG");
    }
}

#[test]
fn filetype_names() {
    assert_eq!(filetype_to_str(1), "OBJECT");
    assert_eq!(filetype_to_str(MH_EXECUTE), "EXECUTE");
    assert_eq!(filetype_to_str(6), "DYLIB");
    assert_eq!(filetype_to_str(MH_KEXT_BUNDLE), "KEXT_BUNDLE");
    assert_eq!(filetype_to_str(0), "UNKNOWN FILETYPE");
    assert_eq!(filetype_to_str(0xc), "UNKNOWN FILETYPE");
}
