use metarbot::text::{chars_of, join, split, split_whitespace};

fn strings(words: &[&str]) -> Vec<String> {
    words.iter().map(|w| w.to_string()).collect()
}

#[test]
fn chars_of_gives_every_character() {
    assert_eq!(chars_of("&!"), vec!['&', '!']);
    assert_eq!(chars_of(""), Vec::<char>::new());
    assert_eq!(chars_of("aé"), vec!['a', 'é']);
}

#[test]
fn split_whitespace_drops_all_blanks() {
    assert_eq!(split_whitespace("  metar   KJFK\tnow \n"), strings(&["metar", "KJFK", "now"]));
}

#[test]
fn split_whitespace_of_blank_text_is_empty() {
    assert_eq!(split_whitespace(""), Vec::<String>::new());
    assert_eq!(split_whitespace(" \t "), Vec::<String>::new());
}

#[test]
fn split_whitespace_knows_unicode_blanks() {
    assert_eq!(split_whitespace("a\u{a0}b\u{2003}c"), strings(&["a", "b", "c"]));
}

#[test]
fn split_whitespace_keeps_one_word_whole() {
    assert_eq!(split_whitespace("quit"), strings(&["quit"]));
    assert_eq!(split_whitespace("ünïcödé"), strings(&["ünïcödé"]));
}

#[test]
fn split_keeps_empty_pieces() {
    assert_eq!(split("a;;b;", ';'), strings(&["a", "", "b", ""]));
    assert_eq!(split("", ';'), strings(&[""]));
    assert_eq!(split(";", ';'), strings(&["", ""]));
    assert_eq!(split("abc", ';'), strings(&["abc"]));
}

#[test]
fn join_puts_one_space_between() {
    let words = strings(&["part", "so", "long"]);
    assert_eq!(join(&words, 0), "part so long");
    assert_eq!(join(&words, 1), "so long");
    assert_eq!(join(&words, 2), "long");
    assert_eq!(join(&words, 3), "");
    assert_eq!(join(&words, 4), "");
    assert_eq!(join(&Vec::new(), 0), "");
}
