use aocsuite::text::{
    blank, chars_of, concat2, concat3, find_last, find_text, has_text, i64_text, is_space,
    same_text, scan_run, split_lines, u128_text, u64_text, CharClass,
};

fn cs(s: &str) -> Vec<char> {
    s.chars().collect()
}

#[test]
fn integers_are_written_in_decimal() {
    assert_eq!(u64_text(0), "0");
    assert_eq!(u64_text(7), "7");
    assert_eq!(u64_text(2024), "2024");
    assert_eq!(u64_text(u64::MAX), u64::MAX.to_string());
    assert_eq!(u128_text(u128::MAX), u128::MAX.to_string());
    assert_eq!(i64_text(-1), "-1");
    assert_eq!(i64_text(i64::MIN), i64::MIN.to_string());
    assert_eq!(i64_text(i64::MAX), i64::MAX.to_string());
    assert_eq!(i64_text(0), "0");
}

#[test]
fn characters_and_concatenation() {
    assert_eq!(chars_of("añ☃"), vec!['a', 'ñ', '☃']);
    assert!(same_text("abc", "abc"));
    assert!(!same_text("abc", "abd"));
    assert!(!same_text("abc", "ABC"));
    assert_eq!(concat2("ab", "cd"), "abcd");
    assert_eq!(concat3("a", "", "c"), "ac");
}

#[test]
fn white_space_is_unicode_white_space() {
    for n in 0u32..0x3100 {
        if let Some(c) = char::from_u32(n) {
            assert_eq!(is_space(c), c.is_whitespace(), "code point {}", n);
        }
    }
    assert!(blank(&cs("")));
    assert!(blank(&cs(" \t\r\n\u{3000}")));
    assert!(!blank(&cs("  x ")));
}

#[test]
fn scanning_stops_outside_the_class() {
    let t = cs("  ab c@d");
    assert_eq!(scan_run(&t, CharClass::Space, 0), 2);
    assert_eq!(scan_run(&t, CharClass::Word, 2), 4);
    assert_eq!(scan_run(&t, CharClass::Until('@'), 0), 6);
    assert_eq!(scan_run(&t, CharClass::Until('!'), 0), 8);
    assert_eq!(scan_run(&t, CharClass::Space, 8), 8);
}

#[test]
fn finding_text() {
    let hay = cs("a==b==c");
    assert_eq!(find_text(&hay, &cs("=="), 0), 1);
    assert_eq!(find_text(&hay, &cs("=="), 2), 4);
    assert_eq!(find_text(&hay, &cs("=="), 5), 7);
    assert_eq!(find_text(&hay, &cs("x"), 0), 7);
    assert!(has_text(&hay, &cs("b==c")));
    assert!(has_text(&hay, &cs("")));
    assert!(has_text(&cs(""), &cs("")));
    assert!(!has_text(&hay, &cs("c==")));
    assert!(!has_text(&cs("ab"), &cs("abc")));
    assert_eq!(find_last(&cs("a.b.c"), '.'), Some(3));
    assert_eq!(find_last(&cs("abc"), '.'), None);
}

#[test]
fn lines_are_split_as_std_splits_them() {
    let cases = [
        "",
        "a",
        "a\n",
        "a\nb",
        "a\r\nb\r\n",
        "\n",
        "\n\n",
        "a\n\nb",
        "a\r",
        "a\r\n\r\n",
        "\r\n",
        "a\rb\nc",
        "x\n\r",
    ];
    for case in cases {
        let want: Vec<String> = case.lines().map(|l| l.to_string()).collect();
        assert_eq!(split_lines(case), want, "splitting {:?}", case);
    }
}
