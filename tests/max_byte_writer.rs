use flexi_syslog::bounded::MaxByteWriter;

#[test]
fn should_truncate_on_overflow() {
    let max_bytes: usize = 10;
    let input = "this is the end";
    let mut w = MaxByteWriter::new(Vec::new(), max_bytes);
    let bytes_written = w.write(input.as_bytes());

    assert_eq!(bytes_written, 15);
    assert_eq!("this is th", std::str::from_utf8(w.get_ref()).unwrap());
}

#[test]
fn should_truncate_on_multi_write_overflow() {
    let max_bytes: usize = 10;
    let input = "this is the end";
    let mut w = MaxByteWriter::new(Vec::new(), max_bytes);

    let bytes = input.as_bytes();
    let chunk_a = &bytes[..=4];
    let chunk_b = &bytes[5..=11];
    let chunk_c = &bytes[12..];

    let bytes_written_a = w.write(chunk_a);
    let bytes_written_b = w.write(chunk_b);
    let bytes_written_c = w.write(chunk_c);

    let bytes_written = bytes_written_a + bytes_written_b + bytes_written_c;

    assert_eq!(bytes_written, 15);
    assert_eq!("this is th", std::str::from_utf8(w.get_ref()).unwrap());
}

#[test]
fn should_write_all_input_on_underflow() {
    let max_bytes: usize = 20;
    let input = "this is the end";
    let mut w = MaxByteWriter::new(Vec::new(), max_bytes);
    let bytes_written = w.write(input.as_bytes());

    assert_eq!(bytes_written, 15);
    assert_eq!(w.get_ref().len(), bytes_written);
    assert_eq!(std::str::from_utf8(w.get_ref()).unwrap(), input);
}

#[test]
fn should_write_all_input_on_multi_write_underflow() {
    let max_bytes: usize = 20;
    let input = "this is the end";
    let mut w = MaxByteWriter::new(Vec::new(), max_bytes);

    let bytes = input.as_bytes();
    let chunk_a = &bytes[..=4];
    let chunk_b = &bytes[5..=11];
    let chunk_c = &bytes[12..];

    let bytes_written_a = w.write(chunk_a);
    let bytes_written_b = w.write(chunk_b);
    let bytes_written_c = w.write(chunk_c);

    let bytes_written = bytes_written_a + bytes_written_b + bytes_written_c;

    assert_eq!(bytes_written, 15);
    assert_eq!(w.get_ref().len(), bytes_written);
    assert_eq!(std::str::from_utf8(w.get_ref()).unwrap(), input);
}

#[test]
fn should_write_nothing_on_empty_input() {
    let max_bytes: usize = 10;
    let input = "";
    let mut w = MaxByteWriter::new(Vec::new(), max_bytes);
    let bytes_written = w.write(input.as_bytes());
    assert_eq!(bytes_written, 0);
    assert!(w.get_ref().is_empty());
    assert!(!w.is_truncated());
    assert_eq!(w.bytes_remaining(), 10);
}

#[test]
fn never_splits_a_two_byte_scalar() {
    let mut w = MaxByteWriter::new(Vec::new(), 2);
    let n = w.write("aé".as_bytes());
    assert_eq!(n, 3);
    assert_eq!(w.get_ref().as_slice(), b"a");
    assert!(w.is_truncated());
    assert_eq!(w.bytes_remaining(), 0);
}

#[test]
fn never_splits_a_three_byte_scalar() {
    let input = "日本語";
    for cap in 0..=input.len() {
        let mut w = MaxByteWriter::new(Vec::new(), cap);
        assert_eq!(w.write(input.as_bytes()), 9);
        let out = std::str::from_utf8(w.get_ref()).unwrap();
        assert_eq!(out.len(), cap - cap % 3);
        assert!(input.starts_with(out));
    }
}

#[test]
fn drops_whole_scalar_and_stops_after_partial_fit() {
    let mut w = MaxByteWriter::new(Vec::new(), 4);
    assert_eq!(w.write(b"ab"), 2);
    assert_eq!(w.write("€".as_bytes()), 3);
    assert_eq!(w.write(b"c"), 1);
    assert_eq!(w.get_ref().as_slice(), b"ab");
    assert_eq!(w.bytes_remaining(), 0);
}

#[test]
fn exact_fit_commits_last_byte() {
    let mut w = MaxByteWriter::new(Vec::new(), 5);
    assert_eq!(w.write(b"hello"), 5);
    assert_eq!(w.get_ref().as_slice(), b"hello");
    assert_eq!(w.bytes_remaining(), 0);
    assert!(!w.is_truncated());
    assert_eq!(w.write(b""), 0);
    assert!(!w.is_truncated());
    assert_eq!(w.write(b"!"), 1);
    assert!(w.is_truncated());
    assert_eq!(w.into_inner(), b"hello".to_vec());
}

#[test]
fn appends_to_existing_bytes() {
    let mut w = MaxByteWriter::new(b"x".to_vec(), 3);
    assert_eq!(w.write(b"yzw"), 3);
    w.flush();
    assert_eq!(w.get_ref().as_slice(), b"xyzw");
}

#[test]
fn reports_full_length_for_every_capacity() {
    let input = "añb€c𝄞d";
    for cap in 0..=input.len() + 1 {
        let mut w = MaxByteWriter::new(Vec::new(), cap);
        assert_eq!(w.write(input.as_bytes()), input.len());
        let out = std::str::from_utf8(w.get_ref()).unwrap();
        assert!(out.len() <= cap);
        assert!(input.starts_with(out));
    }
}

#[test]
fn pieces_keep_what_one_write_keeps() {
    let whole = "ab€dé";
    for cap in 0..=whole.len() + 1 {
        let mut once = MaxByteWriter::new(Vec::new(), cap);
        once.write(whole.as_bytes());
        let mut pieces = MaxByteWriter::new(Vec::new(), cap);
        for piece in ["a", "b€", "", "d", "é"] {
            assert_eq!(pieces.write(piece.as_bytes()), piece.len());
        }
        assert_eq!(pieces.get_ref(), once.get_ref());
        assert_eq!(pieces.is_truncated(), once.is_truncated());
        assert_eq!(pieces.bytes_remaining(), once.bytes_remaining());
    }
}
