use todo_squeel::words::trim;

#[test]
fn trim_takes_white_space_off_both_ends() {
    assert_eq!(trim("  hello  "), "hello");
    assert_eq!(trim("hello\n"), "hello");
    assert_eq!(trim("\t\r\n hello world \u{3000}"), "hello world");
    assert_eq!(trim("hello"), "hello");
    assert_eq!(trim("a"), "a");
    assert_eq!(trim(" a"), "a");
    assert_eq!(trim("a "), "a");
}

#[test]
fn trim_of_white_space_is_empty() {
    assert_eq!(trim(""), "");
    assert_eq!(trim(" "), "");
    assert_eq!(trim(" \t\n\r\u{a0}\u{2028}"), "");
}

#[test]
fn trim_keeps_the_white_space_inside() {
    assert_eq!(trim(" a  b\tc "), "a  b\tc");
}

#[test]
fn trim_agrees_with_the_standard_library() {
    let lines = [
        "", " ", "x", " x", "x ", "  x  y  ", "\u{200b}x\u{200b}", "\u{feff}x", "\u{85}x\u{1680}", "é ", " 日本 ",
        "\u{b}\u{c}x\u{1c}\u{1f}", "\u{2000}\u{200a}x\u{202f}\u{205f}",
    ];
    for line in lines {
        assert_eq!(trim(line), line.trim());
    }
}

#[test]
fn white_space_is_what_the_standard_library_takes_off() {
    let mut spaces = 0;
    for code in 0..=0x10ffffu32 {
        if let Some(c) = char::from_u32(code) {
            let line = format!("{}x{}", c, c);
            assert_eq!(trim(&line), line.trim());
            if trim(&line).len() == 1 {
                spaces += 1;
            }
        }
    }
    assert_eq!(spaces, 25);
}
