use prom_line::text::trim;

#[test]
fn trim_drops_whitespace_at_both_ends() {
    assert_eq!(trim("  a b  "), "a b");
    assert_eq!(trim("a b"), "a b");
    assert_eq!(trim("\ta\n"), "a");
    assert_eq!(trim("a  "), "a");
    assert_eq!(trim("  a"), "a");
    assert_eq!(trim(" a  b   c "), "a  b   c");
}

#[test]
fn trim_of_blank_is_empty() {
    assert_eq!(trim(""), "");
    assert_eq!(trim(" "), "");
    assert_eq!(trim(" \t\r\n\u{b}\u{c}"), "");
    assert_eq!(trim("\u{85}\u{a0}\u{1680}\u{2000}\u{200a}"), "");
    assert_eq!(trim("\u{2028}\u{2029}\u{202f}\u{205f}\u{3000}"), "");
}

#[test]
fn trim_counts_characters_not_bytes() {
    assert_eq!(trim("\u{3000}h\u{e9}llo w\u{f6}rld\u{2003}"), "h\u{e9}llo w\u{f6}rld");
    assert_eq!(trim(" \u{1f600} "), "\u{1f600}");
    assert_eq!(trim("\u{200b} x"), "\u{200b} x");
}

#[test]
fn trim_is_the_trim_of_str() {
    let lines = [
        "",
        " ",
        "x",
        " x",
        "x ",
        "  foo 2  ",
        "\r\n",
        "# HELP a\r\n",
        "\u{a0}\u{e9}\u{a0}",
        "a\u{3000}\u{3000}b",
        "\u{feff}a ",
    ];
    for line in lines {
        assert_eq!(trim(line), line.trim());
    }
}

#[test]
fn trim_twice_is_trim_once() {
    for line in ["", "  ", " a ", "a b", "\t# HELP x \n"] {
        assert_eq!(trim(trim(line)), trim(line));
    }
}

#[test]
fn trim_gives_a_slice_of_the_line() {
    let line = "  abc  ";
    let kept = trim(line);
    assert_eq!(line.find(kept), Some(2));
    assert_eq!(kept.len(), 3);
}
