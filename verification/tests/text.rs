use yamc::text::{decode_lines, join, spaces, split_lines, NEWLINE};

fn words(parts: &[&str]) -> Vec<String> {
    parts.iter().map(|p| p.to_string()).collect()
}

#[test]
fn spaces_makes_blanks() {
    assert_eq!(spaces(0), "");
    assert_eq!(spaces(1), " ");
    assert_eq!(spaces(5), "     ");
    assert_eq!(spaces(1000).len(), 1000);
    assert!(spaces(1000).chars().all(|c| c == ' '));
}

#[test]
fn join_puts_the_separator_between_parts() {
    assert_eq!(join(&words(&[]), ", "), "");
    assert_eq!(join(&words(&["Solo"]), ", "), "Solo");
    assert_eq!(join(&words(&["A", "B"]), ", "), "A, B");
    assert_eq!(join(&words(&["A", "B", "C"]), ", "), "A, B, C");
    assert_eq!(join(&words(&["", ""]), "-"), "-");
    assert_eq!(join(&words(&["x", "", "y"]), "/"), "x//y");
    assert_eq!(join(&words(&["a", "b"]), ""), "ab");
}

#[test]
fn split_lines_cuts_at_newlines() {
    assert_eq!(NEWLINE, b'\n');
    assert_eq!(split_lines(b""), vec![b"".to_vec()]);
    assert_eq!(split_lines(b"abc"), vec![b"abc".to_vec()]);
    assert_eq!(split_lines(b"ab\ncd"), vec![b"ab".to_vec(), b"cd".to_vec()]);
    assert_eq!(split_lines(b"ab\n"), vec![b"ab".to_vec(), b"".to_vec()]);
    assert_eq!(split_lines(b"\n"), vec![b"".to_vec(), b"".to_vec()]);
    assert_eq!(
        split_lines(b"\n\nx\n"),
        vec![b"".to_vec(), b"".to_vec(), b"x".to_vec(), b"".to_vec()]
    );
    // a carriage return is an ordinary byte
    assert_eq!(split_lines(b"a\r\nb"), vec![b"a\r".to_vec(), b"b".to_vec()]);
}

#[test]
fn split_lines_can_be_put_together_again() {
    let stream: &[u8] = b"one\n\ntwo\nthree\n";
    let lines = split_lines(stream);
    assert_eq!(lines.len(), 5);
    assert!(lines.iter().all(|l| !l.contains(&b'\n')));
    assert_eq!(lines.join(&b'\n'), stream.to_vec());
}

#[test]
fn decode_lines_reads_utf8() {
    let lines = vec![b"plain".to_vec(), "é⏮".as_bytes().to_vec(), Vec::new()];
    assert_eq!(decode_lines(&lines), vec!["plain".to_string(), "é⏮".to_string(), String::new()]);
    assert_eq!(decode_lines(&Vec::new()), Vec::<String>::new());
}

#[test]
fn decode_lines_replaces_malformed_bytes() {
    let lines = vec![vec![b'a', 0xff, b'b'], vec![0xe2, 0x8f]];
    assert_eq!(decode_lines(&lines), vec!["a\u{fffd}b".to_string(), "\u{fffd}".to_string()]);
}
