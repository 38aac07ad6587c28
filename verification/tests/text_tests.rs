use voyage_dl::text::{
    chars_of, contains_str, decimal, escape_metadata, hex_lower, same_text, split_lines,
};

fn lines_of(s: &str) -> Vec<String> {
    split_lines(&chars_of(s)).iter().map(|l| l.iter().collect::<String>()).collect()
}

#[test]
fn escape_metadata_doubles_backslashes_and_escapes_quotes() {
    assert_eq!(escape_metadata("plain"), "plain");
    assert_eq!(escape_metadata(r#"say "hi""#), r#"say \"hi\""#);
    assert_eq!(escape_metadata(r"a\b"), r"a\\b");
    assert_eq!(escape_metadata(r#"\""#), r#"\\\""#);
    assert_eq!(escape_metadata(""), "");
}

#[test]
fn escape_metadata_matches_sequential_replacements() {
    for s in [r#"AC\DC "live""#, r#""\"#, "Beyoncé", r#"\\""\"#] {
        let expected = s.replace('\\', "\\\\").replace('"', "\\\"");
        assert_eq!(escape_metadata(s), expected);
    }
}

#[test]
fn escape_metadata_round_trip_on_concrete_values() {
    // Reading back: a backslash stands for the character after it.
    fn unescape(s: &str) -> String {
        let mut out = String::new();
        let mut it = s.chars();
        while let Some(c) = it.next() {
            if c == '\\' {
                if let Some(d) = it.next() {
                    out.push(d);
                    continue;
                }
            }
            out.push(c);
        }
        out
    }
    for s in [r#"Guns N' "Roses""#, r"C:\music\", "x"] {
        assert_eq!(unescape(&escape_metadata(s)), s);
    }
}

#[test]
fn decimal_and_hex_formatting() {
    assert_eq!(decimal(0), "0");
    assert_eq!(decimal(7), "7");
    assert_eq!(decimal(1234567890), "1234567890");
    assert_eq!(decimal(u64::MAX), u64::MAX.to_string());
    assert_eq!(hex_lower(0), "0");
    assert_eq!(hex_lower(255), "ff");
    assert_eq!(hex_lower(0xdeadbeef), "deadbeef");
    assert_eq!(hex_lower(u64::MAX), format!("{:x}", u64::MAX));
}

#[test]
fn contains_and_same_text() {
    assert!(contains_str("https://youtube.com/playlist?list=PL1", "list="));
    assert!(!contains_str("https://youtube.com/watch?v=abc", "list="));
    assert!(contains_str("abc", ""));
    assert!(!contains_str("", "a"));
    assert!(same_text("été", "été"));
    assert!(!same_text("a", "ab"));
}

#[test]
fn lines_match_std() {
    for s in ["", "a", "a\n", "a\nb", "a\r\nb\r\n", "foo\nbar\n\r\nbaz\r", "\n\n", "x\ry\n"] {
        let expected: Vec<String> = s.lines().map(|l| l.to_string()).collect();
        assert_eq!(lines_of(s), expected, "input {:?}", s);
    }
}
