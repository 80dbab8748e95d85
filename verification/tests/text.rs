use todo_list::prelude::{Category, Tag, Task};

#[test]
fn white_space_is_what_std_calls_white_space() {
    let mut count = 0;
    for code in 0..=0x10FFFFu32 {
        if let Some(c) = char::from_u32(code) {
            let alone = c.to_string();
            assert_eq!(Category::new(&alone).is_err(), c.is_whitespace(), "U+{:04X}", code);
            if c.is_whitespace() {
                count += 1;
            }
        }
    }
    assert_eq!(count, 25);
}

#[test]
fn every_white_space_character_is_trimmed_at_both_ends() {
    let spaces = [
        '\u{9}', '\u{a}', '\u{b}', '\u{c}', '\u{d}', '\u{20}', '\u{85}', '\u{a0}', '\u{1680}',
        '\u{2000}', '\u{2001}', '\u{2002}', '\u{2003}', '\u{2004}', '\u{2005}', '\u{2006}',
        '\u{2007}', '\u{2008}', '\u{2009}', '\u{200a}', '\u{2028}', '\u{2029}', '\u{202f}',
        '\u{205f}', '\u{3000}',
    ];
    for c in spaces {
        let padded = format!("{}{}x y{}", c, c, c);
        assert_eq!(Category::new(&padded).unwrap().get_title(), "x y");
        assert_eq!(Task::new(&padded).unwrap().build().get_title(), "x y");
        assert_eq!(Tag::new(&padded).unwrap().get_title(), "x_y");
        let inside = format!("x{}y", c);
        assert_eq!(Category::new(&inside).unwrap().get_title(), inside);
    }
}

#[test]
fn characters_next_to_white_space_are_kept() {
    for c in ['\u{8}', '\u{e}', '\u{1f}', '\u{21}', '\u{84}', '\u{86}', '\u{180e}', '\u{200b}',
        '\u{200c}', '\u{2027}', '\u{202a}', '\u{2060}', '\u{3001}', '\u{feff}', '_', '0']
    {
        let alone = c.to_string();
        assert_eq!(Category::new(&alone).unwrap().get_title(), alone);
        let padded = format!(" {} ", c);
        assert_eq!(Category::new(&padded).unwrap().get_title(), alone);
        assert_eq!(Task::new(&padded).unwrap().build().get_title(), alone);
        assert_eq!(Tag::new(&padded).unwrap().get_title(), alone);
    }
}

#[test]
fn trimming_matches_std_on_mixed_texts() {
    for text in [
        "plain",
        " left",
        "right ",
        "  both  ",
        "\t\ttabs\t\t",
        "\r\nline\r\n",
        " a b  c ",
        "\u{3000}wide\u{3000}",
        " \u{200b} ",
        "x",
        " x",
        "x ",
        "é è",
        "  日本語 のテキスト ",
    ] {
        assert_eq!(Category::new(text).unwrap().get_title(), text.trim());
        assert_eq!(Task::new(text).unwrap().build().get_title(), text.trim());
        assert_eq!(Tag::new(text).unwrap().get_title(), text.trim().replace(" ", "_"));
    }
}
