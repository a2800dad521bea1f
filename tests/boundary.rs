use flexi_syslog::boundary::{find_char_boundary_back_from_index, find_char_boundary_from_end, is_char_boundary};

#[test]
fn classifies_bytes() {
    assert!(is_char_boundary(b'a'));
    assert!(is_char_boundary(0x7f));
    assert!(!is_char_boundary(0x80));
    assert!(!is_char_boundary(0xbf));
    assert!(is_char_boundary(0xc3));
    assert!(is_char_boundary(0xf0));
}

#[test]
fn finds_last_scalar_start() {
    assert_eq!(find_char_boundary_from_end(b"a"), 0);
    assert_eq!(find_char_boundary_from_end(b"abc"), 2);
    assert_eq!(find_char_boundary_from_end("aé".as_bytes()), 1);
    assert_eq!(find_char_boundary_from_end(&[0x80, 0x80]), 0);
}

#[test]
fn finds_boundary_back_from_index() {
    let s = "héllo";
    assert_eq!(find_char_boundary_back_from_index(s, 10), 6);
    assert_eq!(find_char_boundary_back_from_index(s, 6), 6);
    assert_eq!(find_char_boundary_back_from_index(s, 2), 1);
    assert_eq!(find_char_boundary_back_from_index(s, 3), 3);
    assert_eq!(find_char_boundary_back_from_index(s, 0), 0);
    assert_eq!(find_char_boundary_back_from_index("", 0), 0);
}
