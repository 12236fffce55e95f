use loc::{count_buf_lines, ByteLines};

fn lines_of(buf: &[u8]) -> Vec<Vec<u8>> {
    let mut state = ByteLines(buf).lines();
    let mut out = Vec::new();
    while let Some(line) = state.next() {
        out.push(line.to_vec());
    }
    out
}

#[test]
fn empty_buffer_has_no_lines() {
    assert_eq!(lines_of(b""), Vec::<Vec<u8>>::new());
}

#[test]
fn buffer_without_newline_is_one_line() {
    assert_eq!(lines_of(b"abc"), vec![b"abc".to_vec()]);
}

#[test]
fn trailing_newline_adds_no_line() {
    assert_eq!(lines_of(b"abc\n"), vec![b"abc".to_vec()]);
    assert_eq!(lines_of(b"a\nb\n"), vec![b"a".to_vec(), b"b".to_vec()]);
}

#[test]
fn last_line_without_newline_is_kept() {
    assert_eq!(lines_of(b"a\nb"), vec![b"a".to_vec(), b"b".to_vec()]);
}

#[test]
fn empty_lines_are_lines() {
    assert_eq!(lines_of(b"\n"), vec![b"".to_vec()]);
    assert_eq!(lines_of(b"\n\n"), vec![b"".to_vec(), b"".to_vec()]);
    assert_eq!(lines_of(b"a\n\nb"), vec![b"a".to_vec(), b"".to_vec(), b"b".to_vec()]);
}

#[test]
fn carriage_return_stays_in_the_line() {
    assert_eq!(lines_of(b"a\r\nb"), vec![b"a\r".to_vec(), b"b".to_vec()]);
}

#[test]
fn bytes_that_are_no_text_are_split_too() {
    assert_eq!(lines_of(&[0xff, 0xfe, b'\n', 0x80]), vec![vec![0xff, 0xfe], vec![0x80]]);
}

#[test]
fn next_after_the_end_stays_none() {
    let mut state = ByteLines(b"x").lines();
    assert_eq!(state.next(), Some(&b"x"[..]));
    assert_eq!(state.next(), None);
    assert_eq!(state.next(), None);
}

#[test]
fn newlines_are_counted() {
    assert_eq!(count_buf_lines(b""), 0);
    assert_eq!(count_buf_lines(b"abc"), 0);
    assert_eq!(count_buf_lines(b"abc\n"), 1);
    assert_eq!(count_buf_lines(b"\n\n\n"), 3);
    assert_eq!(count_buf_lines(b"a\nb\nc"), 2);
}

#[test]
fn newlines_of_chunks_add_up() {
    let buf = b"one\ntwo\n\nthree\nfour";
    let whole = count_buf_lines(buf);
    for cut in 0..=buf.len() {
        assert_eq!(count_buf_lines(&buf[..cut]) + count_buf_lines(&buf[cut..]), whole);
    }
    assert_eq!(whole, 4);
}
