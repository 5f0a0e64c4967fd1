use goblin::{Error, Strtab};

#[test]
fn as_vec_no_final_null() {
    let bytes = b"\0printf\0memmove\0busta";
    let strtab = Strtab::new(bytes, 0x0);
    let vec = strtab.to_vec().unwrap();
    assert_eq!(vec.len(), 4);
    assert_eq!(vec, vec!["", "printf", "memmove", "busta"]);
}

#[test]
fn as_vec_no_first_null_no_final_null() {
    let bytes = b"printf\0memmove\0busta";
    let strtab = Strtab::new(bytes, 0x0);
    let vec = strtab.to_vec().unwrap();
    assert_eq!(vec.len(), 3);
    assert_eq!(vec, vec!["printf", "memmove", "busta"]);
}

#[test]
fn to_vec_final_null() {
    let bytes = b"\0printf\0memmove\0busta\0";
    let strtab = Strtab::new(bytes, 0x0);
    let vec = strtab.to_vec().unwrap();
    assert_eq!(vec.len(), 4);
    assert_eq!(vec, vec!["", "printf", "memmove", "busta"]);
}

#[test]
fn to_vec_newline_delim() {
    let bytes = b"\nprintf\nmemmove\nbusta\n";
    let strtab = Strtab::new(bytes, '\n' as u8);
    let vec = strtab.to_vec().unwrap();
    assert_eq!(vec.len(), 4);
    assert_eq!(vec, vec!["", "printf", "memmove", "busta"]);
}

#[test]
fn to_vec_empty_table() {
    let strtab = Strtab::new(b"", 0x0);
    assert_eq!(strtab.to_vec().unwrap(), Vec::<String>::new());
}

#[test]
fn to_vec_consecutive_delimiters_keep_empty_entries() {
    let strtab = Strtab::new(b"a\0\0b", 0x0);
    assert_eq!(strtab.to_vec().unwrap(), vec!["a", "", "b"]);
}

#[test]
fn to_vec_invalid_utf8_is_malformed() {
    let bytes = [b'o', b'k', 0u8, 0xff, 0xfe, 0u8];
    let strtab = Strtab::new(&bytes, 0x0);
    assert!(matches!(strtab.to_vec(), Err(Error::Malformed(_))));
}

#[test]
fn get_reads_entries_by_offset() {
    let bytes = b"printf\0memmove";
    let strtab = Strtab::new(bytes, 0x0);
    assert_eq!(strtab.get(0).unwrap(), "printf");
    assert_eq!(strtab.get(7).unwrap(), "memmove");
    assert_eq!(strtab.get(9).unwrap(), "mmove");
    assert_eq!(strtab.get(6).unwrap(), "");
}

#[test]
fn get_past_the_end_fails() {
    let bytes = b"printf\0memmove";
    let strtab = Strtab::new(bytes, 0x0);
    assert!(matches!(strtab.get(bytes.len()), Err(Error::Malformed(_))));
    assert!(matches!(strtab.get(100), Err(Error::Malformed(_))));
}

#[test]
fn get_invalid_utf8_fails() {
    let bytes = [0xc3u8, 0x28, 0u8, b'x'];
    let strtab = Strtab::new(&bytes, 0x0);
    assert!(matches!(strtab.get(0), Err(Error::Malformed(_))));
    assert_eq!(strtab.get(3).unwrap(), "x");
}

#[test]
fn get_multibyte_utf8() {
    let bytes = "h\u{e9}llo\0w".as_bytes();
    let strtab = Strtab::new(bytes, 0x0);
    assert_eq!(strtab.get(0).unwrap(), "h\u{e9}llo");
    assert_eq!(strtab.to_vec().unwrap(), vec!["h\u{e9}llo", "w"]);
}

#[test]
fn parse_takes_the_region() {
    let bytes = b"xx\0printf\0memmove\0yy";
    let strtab = Strtab::parse(bytes, 3, 15, 0x0).unwrap();
    assert_eq!(strtab.get(0).unwrap(), "printf");
    assert_eq!(strtab.to_vec().unwrap(), vec!["printf", "memmove"]);
}

#[test]
fn parse_out_of_bounds_fails() {
    let bytes = b"printf\0memmove";
    assert!(matches!(Strtab::parse(bytes, 10, 5, 0x0), Err(Error::Malformed(_))));
    assert!(matches!(Strtab::parse(bytes, 15, 0, 0x0), Err(Error::Malformed(_))));
    assert!(Strtab::parse(bytes, 14, 0, 0x0).is_ok());
}

#[test]
fn default_table_is_empty() {
    let strtab = Strtab::default();
    assert!(strtab.get(0).is_err());
    assert_eq!(strtab.to_vec().unwrap().len(), 0);
}
