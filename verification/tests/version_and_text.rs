use upgrade::text::split_lines;
use upgrade::version::u64_to_dec;
use upgrade::version::Version;

#[test]
fn versions_render_in_decimal() {
    assert_eq!(Version::new(1, 2, 3).render(), "1.2.3");
    assert_eq!(Version::new(0, 0, 0).render(), "0.0.0");
    assert_eq!(Version::new(10, 20, 304).render(), "10.20.304");
}

#[test]
fn u64_renders_in_decimal() {
    assert_eq!(u64_to_dec(0), "0");
    assert_eq!(u64_to_dec(7), "7");
    assert_eq!(u64_to_dec(1002), "1002");
    assert_eq!(u64_to_dec(u64::MAX), "18446744073709551615");
}

#[test]
fn version_order_is_lexicographic() {
    let v123 = Version::new(1, 2, 3);
    let v130 = Version::new(1, 3, 0);
    let v200 = Version::new(2, 0, 0);
    assert!(v123.lt(&v130));
    assert!(v130.lt(&v200));
    assert!(v123.lt(&v200));
    assert!(!v123.lt(&v123));
    assert!(!v200.lt(&v123));
    assert!(Version::new(1, 2, 3).lt(&Version::new(1, 2, 4)));
}

#[test]
fn lines_split_at_newlines() {
    let r = split_lines("fix Y\nfix Z");
    assert_eq!(r, vec!["fix Y".to_string(), "fix Z".to_string()]);
}

#[test]
fn empty_text_has_no_lines() {
    assert_eq!(split_lines(""), Vec::<String>::new());
}

#[test]
fn a_trailing_newline_opens_no_extra_line() {
    assert_eq!(split_lines("a\n"), vec!["a".to_string()]);
    assert_eq!(split_lines("\n"), vec!["".to_string()]);
    assert_eq!(split_lines("a\n\n"), vec!["a".to_string(), "".to_string()]);
}

#[test]
fn carriage_returns_before_newlines_are_stripped() {
    assert_eq!(split_lines("a\r\nb"), vec!["a".to_string(), "b".to_string()]);
    assert_eq!(split_lines("foo\r\nbar\n\nbaz\r"), vec![
        "foo".to_string(),
        "bar".to_string(),
        "".to_string(),
        "baz\r".to_string(),
    ]);
}

#[test]
fn split_lines_agrees_with_the_lines_iterator() {
    for text in ["", "a", "a\n", "\n", "a\nb", "a\r\nb\r\n", "x\ry", "end\r", "a\n\nb\n"] {
        let expected: Vec<String> = text.lines().map(|l| l.to_string()).collect();
        assert_eq!(split_lines(text), expected, "on {:?}", text);
    }
}
