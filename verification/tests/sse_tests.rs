use counsel::sse::LineDecoder;

#[test]
fn emits_complete_lines() {
    let mut d = LineDecoder::new();
    let lines = d.feed(b"hello\nworld\n");
    assert_eq!(lines, vec!["hello", "world"]);
    assert!(d.flush().is_none());
}

#[test]
fn buffers_partial_line() {
    let mut d = LineDecoder::new();
    assert!(d.feed(b"partial").is_empty());
    let lines = d.feed(b" line\ncomplete\n");
    assert_eq!(lines, vec!["partial line", "complete"]);
}

#[test]
fn split_across_chunks_preserves_cjk() {
    let mut d = LineDecoder::new();
    let full = "data: 立场：正方\n".as_bytes();
    let cut_at = 12;
    assert!(d.feed(&full[..cut_at]).is_empty());
    let lines = d.feed(&full[cut_at..]);
    assert_eq!(lines, vec!["data: 立场：正方"]);
}

#[test]
fn handles_crlf() {
    let mut d = LineDecoder::new();
    let lines = d.feed(b"a\r\nb\r\n");
    assert_eq!(lines, vec!["a", "b"]);
}

#[test]
fn flush_returns_trailing_partial() {
    let mut d = LineDecoder::new();
    assert!(d.feed(b"trailing").is_empty());
    assert_eq!(d.flush().as_deref(), Some("trailing"));
    assert!(d.flush().is_none());
}

#[test]
fn many_lines_one_chunk() {
    let mut d = LineDecoder::new();
    let lines = d.feed(b"a\nb\nc\nd\n");
    assert_eq!(lines, vec!["a", "b", "c", "d"]);
}

#[test]
fn empty_lines_preserved() {
    let mut d = LineDecoder::new();
    let lines = d.feed(b"a\n\nb\n");
    assert_eq!(lines, vec!["a", "", "b"]);
}

#[test]
fn split_mid_utf8_byte() {
    let mut d = LineDecoder::new();
    let full = "测试\n".as_bytes();
    let mut all_lines = Vec::new();
    for b in full {
        all_lines.extend(d.feed(&[*b]));
    }
    assert_eq!(all_lines, vec!["测试"]);
}

#[test]
fn sse_data_lines_assembled_across_chunks() {
    let mut d = LineDecoder::new();
    let mut lines = Vec::new();
    lines.extend(d.feed(b"data: {\"choices\":[{\"delta\":{\"con"));
    lines.extend(d.feed(b"tent\":\"hi\"}}]}\n"));
    lines.extend(d.feed(b"\n"));
    assert_eq!(lines, vec!["data: {\"choices\":[{\"delta\":{\"content\":\"hi\"}}]}", ""]);
}

// Feeding the same bytes in any split yields the same lines.
#[test]
fn chunking_does_not_change_lines() {
    let text = "alpha\r\nβeta\n\ngamma\nlast".as_bytes();
    let mut whole = LineDecoder::new();
    let mut expected = whole.feed(text);
    expected.extend(whole.flush());
    for cut in 0..=text.len() {
        let mut d = LineDecoder::new();
        let mut got = d.feed(&text[..cut]);
        got.extend(d.feed(&text[cut..]));
        got.extend(d.flush());
        assert_eq!(got, expected, "cut at {}", cut);
    }
    assert_eq!(expected, vec!["alpha", "βeta", "", "gamma", "last"]);
}

#[test]
fn invalid_utf8_is_replaced() {
    let mut d = LineDecoder::new();
    let lines = d.feed(&[b'a', 0xff, b'b', b'\n']);
    assert_eq!(lines, vec!["a\u{fffd}b"]);
}
