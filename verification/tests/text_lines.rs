use lenzu::text_lines::{
    join_lines, join_text, normalize_separators, split_lines, split_text, split_words,
};

fn owned(pieces: &[&str]) -> Vec<String> {
    pieces.iter().map(|piece| piece.to_string()).collect()
}

#[test]
fn lines_are_what_stands_between_line_breaks() {
    assert_eq!(split_lines("a\nbc\n\nd"), vec!["a", "bc", "", "d"]);
    assert_eq!(split_lines("abc"), vec!["abc"]);
    assert_eq!(split_lines(""), vec![""]);
    assert_eq!(split_lines("\n"), vec!["", ""]);
    assert_eq!(split_lines("a\n"), vec!["a", ""]);
    assert_eq!(split_lines("最近\n人気"), vec!["最近", "人気"]);
}

#[test]
fn joining_puts_the_separator_between() {
    assert_eq!(join_lines(&owned(&["a", "bc", "", "d"])), "a\nbc\n\nd");
    assert_eq!(join_lines(&owned(&["abc"])), "abc");
    assert_eq!(join_lines(&owned(&[])), "");
    assert_eq!(join_lines(&owned(&["", ""])), "\n");
    assert_eq!(join_text(&owned(&["jpn", "jpn_vert", "osd"]), "+"), "jpn+jpn_vert+osd");
    assert_eq!(join_text(&owned(&["a", "b"]), ", "), "a, b");
}

#[test]
fn joining_the_lines_of_a_text_gives_the_text() {
    for text in ["", "\n", "a", "a\nb", "\n\na\n", "最近人気の\nデスクトップな\nリナックスです!"] {
        assert_eq!(join_lines(&split_lines(text)), text);
    }
}

#[test]
fn splitting_at_any_separator() {
    assert_eq!(split_text("a+b+c", '+'), vec!["a", "b", "c"]);
    assert_eq!(split_text("+", '+'), vec!["", ""]);
}

#[test]
fn words_are_what_stands_between_white_space() {
    assert_eq!(split_words("  the quick\tbrown\n fox "), vec!["the", "quick", "brown", "fox"]);
    assert_eq!(split_words("fox"), vec!["fox"]);
    assert_eq!(split_words(""), Vec::<String>::new());
    assert_eq!(split_words(" \t\n"), Vec::<String>::new());
    assert_eq!(split_words("最近\u{3000}人気"), vec!["最近", "人気"]);
    let text = "a  b c\u{a0}d";
    let expected: Vec<String> = text.split_whitespace().map(|word| word.to_string()).collect();
    assert_eq!(split_words(text), expected);
}

#[test]
fn separators_follow_the_platform() {
    assert_eq!(normalize_separators("assets/fonts/a.ttf", true), "assets\\fonts\\a.ttf");
    assert_eq!(normalize_separators("assets\\fonts/a.ttf", false), "assets/fonts/a.ttf");
    assert_eq!(normalize_separators("assets\\fonts/a.ttf", true), "assets\\fonts\\a.ttf");
    assert_eq!(normalize_separators("", true), "");
    assert_eq!(normalize_separators("/", true), "\\");
    assert_eq!(normalize_separators("plain", false), "plain");
}
