use flexi_syslog::cstr::{buffer_to_cstr, InvalidUtf8};

#[test]
fn appends_nul_without_budget() {
    let mut b = b"hello".to_vec();
    assert_eq!(buffer_to_cstr(&mut b, None), Ok(()));
    assert_eq!(b, b"hello\0".to_vec());
}

#[test]
fn cuts_before_split_scalar() {
    let mut b = "héllo".as_bytes().to_vec();
    assert_eq!(buffer_to_cstr(&mut b, Some(2)), Ok(()));
    assert_eq!(b, b"h\0".to_vec());
}

#[test]
fn budget_past_end_keeps_all() {
    let mut b = "héllo".as_bytes().to_vec();
    assert_eq!(buffer_to_cstr(&mut b, Some(100)), Ok(()));
    assert_eq!(b, "héllo\0".as_bytes().to_vec());
    let mut e: Vec<u8> = Vec::new();
    assert_eq!(buffer_to_cstr(&mut e, Some(0)), Ok(()));
    assert_eq!(e, vec![0u8]);
}

#[test]
fn rejects_invalid_utf8() {
    let mut b = vec![b'a', 0xff, b'b'];
    assert_eq!(buffer_to_cstr(&mut b, Some(1)), Err(InvalidUtf8));
    assert_eq!(b, vec![b'a', 0xff, b'b']);
}

#[test]
fn without_budget_keeps_any_bytes() {
    let mut b = vec![b'a', 0xff, b'b'];
    assert_eq!(buffer_to_cstr(&mut b, None), Ok(()));
    assert_eq!(b, vec![b'a', 0xff, b'b', 0]);
}
