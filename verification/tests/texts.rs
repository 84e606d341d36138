use day_todos::text::{
    chars_of, decimal_string, leading_space, push_decimal, split_lines, text_between, trim,
    trim_start,
};

#[test]
fn trim_removes_white_space_at_both_ends() {
    assert_eq!(trim("  buy milk \t\n"), "buy milk");
    assert_eq!(trim("buy  milk"), "buy  milk");
    assert_eq!(trim(""), "");
    assert_eq!(trim(" \t\r\n"), "");
    assert_eq!(trim("\u{3000}x\u{a0}"), "x");
    assert_eq!(trim("\u{2003}\u{e4} \u{e4}\u{85}"), "\u{e4} \u{e4}");
    assert_eq!(trim("\u{200b}a"), "\u{200b}a");
    for s in ["", " ", " a", "a ", " a b ", "\t\u{1680}z\u{2028}", "\u{feff}q "] {
        assert_eq!(trim(s), s.trim());
        assert_eq!(trim_start(s), s.trim_start());
    }
}

#[test]
fn trim_start_keeps_the_end() {
    assert_eq!(trim_start("  two \t"), "two \t");
    assert_eq!(trim_start("\n"), "");
    assert_eq!(trim_start("x"), "x");
    let chars: Vec<char> = " \t ab ".chars().collect();
    assert_eq!(leading_space(&chars), 3);
    assert_eq!(leading_space(&Vec::new()), 0);
    assert_eq!(leading_space(&vec![' ', ' ']), 2);
    assert_eq!(text_between(&chars, 3, 5), "ab");
    assert_eq!(text_between(&chars, 2, 2), "");
    assert_eq!(text_between(&chars, 0, 6), " \t ab ");
}

#[test]
fn lines_are_the_pieces_between_line_breaks() {
    assert_eq!(split_lines(""), vec![""]);
    assert_eq!(split_lines("one"), vec!["one"]);
    assert_eq!(split_lines("one\ntwo"), vec!["one", "two"]);
    assert_eq!(split_lines("one\n"), vec!["one", ""]);
    assert_eq!(split_lines("\n\none"), vec!["", "", "one"]);
    assert_eq!(split_lines("a\r\nb"), vec!["a\r", "b"]);
    for s in ["", "\n", "a\nb\n\nc", "\u{e4}\n\u{3000}"] {
        let expected: Vec<String> = s.split('\n').map(|l| l.to_string()).collect();
        assert_eq!(split_lines(s), expected);
    }
}

#[test]
fn numbers_are_written_in_decimal() {
    assert_eq!(decimal_string(0), "0");
    assert_eq!(decimal_string(7), "7");
    assert_eq!(decimal_string(10), "10");
    assert_eq!(decimal_string(409), "409");
    assert_eq!(decimal_string(usize::MAX), usize::MAX.to_string());
    let mut s = String::from("n=");
    push_decimal(&mut s, 1200);
    assert_eq!(s, "n=1200");
}

#[test]
fn white_space_is_the_unicode_set() {
    let in_set = |c: char| {
        let n = c as u32;
        (0x09..=0x0D).contains(&n)
            || (0x2000..=0x200A).contains(&n)
            || [0x20, 0x85, 0xA0, 0x1680, 0x2028, 0x2029, 0x202F, 0x205F, 0x3000].contains(&n)
    };
    let mut buffer = String::new();
    for n in 0..=0x10FFFFu32 {
        if let Some(c) = char::from_u32(n) {
            buffer.clear();
            buffer.push(c);
            assert_eq!(trim(&buffer).is_empty(), in_set(c), "U+{:04X}", n);
        }
    }
}

#[test]
fn characters_come_out_in_order() {
    assert_eq!(chars_of(""), Vec::<char>::new());
    assert_eq!(chars_of("a\u{e4}\u{3000}\u{1f600}z"), vec!['a', '\u{e4}', '\u{3000}', '\u{1f600}', 'z']);
}
