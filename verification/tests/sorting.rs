use loc::{last_n_chars, Count, LangTotal, Sort};

#[test]
fn columns_by_their_names() {
    assert_eq!(Sort::from_str("code"), Ok(Sort::Code));
    assert_eq!(Sort::from_str("Code"), Ok(Sort::Code));
    assert_eq!(Sort::from_str("blank"), Ok(Sort::Blank));
    assert_eq!(Sort::from_str("Comment"), Ok(Sort::Comment));
    assert_eq!(Sort::from_str("lines"), Ok(Sort::Lines));
    assert_eq!(Sort::from_str("Language"), Ok(Sort::Language));
    assert_eq!(Sort::from_str("files"), Ok(Sort::Files));
    assert_eq!(Sort::named("files"), Some(Sort::Files));
    assert_eq!(Sort::named("FILES"), None);
}

#[test]
fn near_misses_get_a_suggestion() {
    assert_eq!(Sort::from_str("CODE"), Err(Some("Code".to_string())));
    assert_eq!(Sort::from_str("blnak"), Err(Some("Blank".to_string())));
    assert_eq!(Sort::from_str("coments"), Err(Some("Comment".to_string())));
    assert_eq!(Sort::from_str("langauge"), Err(Some("Language".to_string())));
    assert_eq!(Sort::from_str("fils"), Err(Some("Files".to_string())));
    assert_eq!(Sort::from_str("cod"), Err(Some("Code".to_string())));
}

#[test]
fn first_near_column_is_suggested() {
    assert_eq!(Sort::from_str("lies"), Err(Some("Lines".to_string())));
    assert_eq!(Sort::from_str(""), Err(None));
    assert_eq!(Sort::from_str("co"), Err(Some("Code".to_string())));
}

#[test]
fn far_words_get_no_suggestion() {
    assert_eq!(Sort::from_str("xyzxyzxyz"), Err(None));
    assert_eq!(Sort::from_str("size"), Err(None));
}

#[test]
fn suggestion_from_distances() {
    assert_eq!(Sort::suggest(3, 3, 3, 3, 3, 3), None);
    assert_eq!(Sort::suggest(2, 0, 0, 0, 0, 0), Some("Blank"));
    assert_eq!(Sort::suggest(3, 2, 0, 0, 0, 0), Some("Code"));
    assert_eq!(Sort::suggest(3, 3, 1, 0, 0, 0), Some("Comment"));
    assert_eq!(Sort::suggest(9, 9, 9, 0, 0, 0), Some("Lines"));
    assert_eq!(Sort::suggest(9, 9, 9, 9, 2, 0), Some("Language"));
    assert_eq!(Sort::suggest(9, 9, 9, 9, 3, 2), Some("Files"));
}

#[test]
fn columns_that_order_files() {
    assert!(Sort::Code.for_files());
    assert!(Sort::Comment.for_files());
    assert!(Sort::Blank.for_files());
    assert!(Sort::Lines.for_files());
    assert!(!Sort::Language.for_files());
    assert!(!Sort::Files.for_files());
}

#[test]
fn keys_of_columns() {
    let t = LangTotal { files: 7, count: Count { code: 1, comment: 2, blank: 3, lines: 6 } };
    assert_eq!(Sort::Code.key(&t), Some(1));
    assert_eq!(Sort::Comment.key(&t), Some(2));
    assert_eq!(Sort::Blank.key(&t), Some(3));
    assert_eq!(Sort::Lines.key(&t), Some(6));
    assert_eq!(Sort::Files.key(&t), Some(7));
    assert_eq!(Sort::Language.key(&t), None);
}

#[test]
fn end_of_a_string() {
    assert_eq!(last_n_chars("hello", 10), "hello");
    assert_eq!(last_n_chars("hello", 5), "hello");
    assert_eq!(last_n_chars("hello world", 5), "world");
    assert_eq!(last_n_chars("hello", 0), "");
    assert_eq!(last_n_chars("", 3), "");
}

#[test]
fn end_of_a_string_with_long_characters() {
    assert_eq!(last_n_chars("h\u{e9}llo", 3), "lo");
    assert_eq!(last_n_chars("\u{e9}\u{e9}\u{e9}", 1), "");
    assert_eq!(last_n_chars("\u{e9}\u{e9}\u{e9}", 5), "\u{e9}\u{e9}");
    assert_eq!(last_n_chars("\u{e9}\u{e9}\u{e9}", 6), "\u{e9}\u{e9}\u{e9}");
}
