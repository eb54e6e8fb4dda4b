use tachyon::lines::{build_line_starts, line_matches, select_lines};

#[test]
fn build_line_starts_handles_trailing_newline() {
    let starts = build_line_starts(b"one\ntwo\n");
    assert_eq!(starts, vec![0, 4, 8]);
}

#[test]
fn build_line_starts_handles_an_open_last_line() {
    assert_eq!(build_line_starts(b"one\ntwo"), vec![0, 4, 7]);
    assert_eq!(build_line_starts(b"one"), vec![0, 3]);
}

#[test]
fn build_line_starts_handles_empty_lines_and_files() {
    assert_eq!(build_line_starts(b""), vec![0]);
    assert_eq!(build_line_starts(b"\n"), vec![0, 1]);
    assert_eq!(build_line_starts(b"\n\na\n\n"), vec![0, 1, 2, 4, 5]);
}

#[test]
fn lines_put_together_are_the_file() {
    let bytes: &[u8] = b"a\nbc\n\nlast";
    let starts = build_line_starts(bytes);
    let mut joined: Vec<u8> = Vec::new();
    for i in 0..starts.len() - 1 {
        let line = &bytes[starts[i]..starts[i + 1]];
        assert!(!line.is_empty());
        assert!(!line[..line.len() - 1].contains(&b'\n'));
        joined.extend_from_slice(line);
    }
    assert_eq!(joined, bytes);
}

#[test]
fn select_lines_keeps_matching_lines_in_order() {
    let bytes: &[u8] = b"error: a\ninfo: b\nerror: c\n\nwarn error\n";
    let starts = build_line_starts(bytes);
    assert_eq!(select_lines(bytes, &starts, b"error"), vec![0, 2, 4]);
    assert_eq!(select_lines(bytes, &starts, b"info: b"), vec![1]);
    assert_eq!(select_lines(bytes, &starts, b"nothing"), Vec::<usize>::new());
    assert_eq!(select_lines(bytes, &starts, b""), vec![0, 1, 2, 3, 4]);
    assert_eq!(select_lines(bytes, &starts, b"a\ninfo"), Vec::<usize>::new());
}

#[test]
fn select_lines_keeps_order_over_many_lines() {
    let mut bytes: Vec<u8> = Vec::new();
    let mut expected: Vec<usize> = Vec::new();
    for i in 0..20000usize {
        if i % 7 == 3 {
            bytes.extend_from_slice(b"needle in a rather long line that is searched as a whole, at its very end: needle\n");
            expected.push(i);
        } else {
            bytes.extend_from_slice(b"hay\n");
        }
    }
    let starts = build_line_starts(&bytes);
    assert_eq!(starts.len(), 20001);
    assert_eq!(select_lines(&bytes, &starts, b"end: needle"), expected);
}

#[test]
fn line_matches_looks_at_one_line() {
    let bytes: &[u8] = b"abc\ndef\n";
    let starts = build_line_starts(bytes);
    assert!(line_matches(bytes, &starts, b"bc", 0));
    assert!(!line_matches(bytes, &starts, b"bc", 1));
    assert!(line_matches(bytes, &starts, b"", 1));
}

#[test]
fn longer_queries_keep_fewer_lines() {
    let bytes: &[u8] = b"error: disk\nerror\nwarn: disk\nerror: disk full\n";
    let starts = build_line_starts(bytes);
    let part = select_lines(bytes, &starts, b"disk");
    let whole = select_lines(bytes, &starts, b"error: disk");
    assert_eq!(part, vec![0, 2, 3]);
    assert_eq!(whole, vec![0, 3]);
    assert!(whole.iter().all(|n| part.contains(n)));
}
