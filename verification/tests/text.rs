use bitlink_client::text::{chars_of, decimal, indent, is_white_space, split, trim};

fn strings(items: &[&str]) -> Vec<String> {
    items.iter().map(|s| s.to_string()).collect()
}

#[test]
fn chars_of_gives_every_character_in_order() {
    assert_eq!(chars_of("a,é"), vec!['a', ',', 'é']);
    assert_eq!(chars_of(""), Vec::<char>::new());
}

#[test]
fn decimal_writes_numerals_without_leading_zeros() {
    assert_eq!(decimal(0), "0");
    assert_eq!(decimal(7), "7");
    assert_eq!(decimal(10), "10");
    assert_eq!(decimal(404), "404");
    assert_eq!(decimal(1000), "1000");
    assert_eq!(decimal(65535), "65535");
}

#[test]
fn decimal_agrees_with_the_standard_library() {
    let mut n: u32 = 0;
    while n <= 65535 {
        assert_eq!(decimal(n as u16), n.to_string());
        n += 257;
    }
}

#[test]
fn trim_removes_white_space_at_both_ends_only() {
    assert_eq!(trim("  tok en \n"), "tok en");
    assert_eq!(trim("token"), "token");
    assert_eq!(trim("\t\r\n token"), "token");
    assert_eq!(trim("token\u{a0}\u{2003}"), "token");
}

#[test]
fn trim_of_white_space_alone_is_empty() {
    assert_eq!(trim(""), "");
    assert_eq!(trim(" \n\t "), "");
}

#[test]
fn trim_agrees_with_the_standard_library() {
    for s in ["", " ", "a", " a", "a ", " a b ", "\u{3000}x\u{3000}", "\n\nabc\r\n", "é "] {
        assert_eq!(trim(s), s.trim());
    }
}

#[test]
fn split_cuts_at_every_separator() {
    assert_eq!(split("a,b,c", ','), strings(&["a", "b", "c"]));
    assert_eq!(split("abc", ','), strings(&["abc"]));
}

#[test]
fn split_keeps_white_space_and_empty_pieces() {
    assert_eq!(split("a, b,", ','), strings(&["a", " b", ""]));
    assert_eq!(split("", ','), strings(&[""]));
    assert_eq!(split(",", ','), strings(&["", ""]));
    assert_eq!(split(",,a", ','), strings(&["", "", "a"]));
}

#[test]
fn split_agrees_with_the_standard_library() {
    for s in ["", ",", "a", "a,b", "a,,b", ",a,", "tag one,tag two", "é,ü"] {
        let expected: Vec<String> = s.split(',').map(|p| p.to_string()).collect();
        assert_eq!(split(s, ','), expected);
    }
}

#[test]
fn split_pieces_join_back_to_the_text() {
    for s in ["", ",", "a,b,c", "a, b,", ",,"] {
        assert_eq!(split(s, ',').join(","), s);
        assert_eq!(split(s, ',').len(), s.matches(',').count() + 1);
    }
}

#[test]
fn indent_puts_the_margin_behind_every_line_break() {
    assert_eq!(indent("Object {\n    \"a\": Null,\n}", "    "), "Object {\n        \"a\": Null,\n    }");
    assert_eq!(indent("Null", "    "), "Null");
    assert_eq!(indent("", "    "), "");
    assert_eq!(indent("a\n", "  "), "a\n  ");
    assert_eq!(indent("\n\n", "-"), "\n-\n-");
}

#[test]
fn white_space_is_what_the_standard_library_takes_for_it() {
    let mut seen = 0;
    for n in 0u32..=0x10FFFF {
        if let Some(c) = char::from_u32(n) {
            assert_eq!(is_white_space(c), c.is_whitespace());
            if is_white_space(c) {
                seen += 1;
            }
        }
    }
    assert_eq!(seen, 25);
}
