use loc::{classify, count, count_passes, CommentSyntax, Count, LineKind};

fn c_like() -> CommentSyntax {
    CommentSyntax::new(vec!["//"], vec![("/*", "*/")])
}

fn counted(code: u32, comment: u32, blank: u32) -> Count {
    Count { code, comment, blank, lines: code + comment + blank }
}

#[test]
fn three_line_c_file() {
    let c = count(b"int x = 1;\n// comment\n\n", &c_like());
    assert_eq!(c, Count { code: 1, comment: 1, blank: 1, lines: 3 });
}

#[test]
fn file_of_one_block_comment() {
    let c = count(b"/* all one comment */\n", &c_like());
    assert_eq!(c, Count { code: 0, comment: 1, blank: 0, lines: 1 });
}

#[test]
fn mixed_line_counts_as_code() {
    let c = count(b"x = 1; /* note */ y = 2;\n", &c_like());
    assert_eq!(c, Count { code: 1, comment: 0, blank: 0, lines: 1 });
}

#[test]
fn unterminated_block_comment_keeps_blank_lines_blank() {
    let file = b"/* start\n\nmiddle\n   \nend";
    let c = count(file, &c_like());
    assert_eq!(c, Count { code: 0, comment: 3, blank: 2, lines: 5 });
    let kinds = classify(file, &c_like()).unwrap();
    assert_eq!(
        kinds,
        vec![
            LineKind::Comment,
            LineKind::Blank,
            LineKind::Comment,
            LineKind::Blank,
            LineKind::Comment
        ]
    );
}

#[test]
fn ruby_passes_do_not_count_a_line_twice() {
    let file = b"x = 1\n# c\n=begin\ninside\n=end\ny\n";
    let hash = CommentSyntax::new(vec!["#"], vec![]);
    let block = CommentSyntax::new(vec![], vec![("=begin", "=end")]);
    assert_eq!(count(file, &hash), counted(5, 1, 0));
    assert_eq!(count(file, &block), counted(3, 3, 0));
    let both = count_passes(file, &[hash, block]);
    assert_eq!(both, Count { code: 2, comment: 4, blank: 0, lines: 6 });
}

#[test]
fn invalid_utf8_gives_the_zero_count() {
    let mut file: Vec<u8> = Vec::new();
    file.extend_from_slice(b"line one\n");
    file.extend_from_slice(&[b'b', b'a', b'd', 0xff, 0xfe, b'\n']);
    for _ in 0..8 {
        file.extend_from_slice(b"// more\n");
    }
    assert_eq!(count(&file, &c_like()), Count { code: 0, comment: 0, blank: 0, lines: 0 });
    assert_eq!(classify(&file, &c_like()), None);
    assert_eq!(count_passes(&file, &[c_like()]), Count::default());
}

fn kinds_of(file: &[u8], syntax: &CommentSyntax) -> Vec<LineKind> {
    classify(file, syntax).unwrap()
}

#[test]
fn empty_file_counts_nothing() {
    assert_eq!(count(b"", &c_like()), Count::default());
    assert_eq!(classify(b"", &c_like()), Some(vec![]));
}

#[test]
fn lines_equal_what_the_splitter_yields() {
    assert_eq!(count(b"a\nb\nc", &c_like()).lines, 3);
    assert_eq!(count(b"a\nb\nc\n", &c_like()).lines, 3);
    assert_eq!(count(b"\n\n\n", &c_like()), Count { code: 0, comment: 0, blank: 3, lines: 3 });
}

#[test]
fn counting_twice_gives_the_same_count() {
    let file = b"int x; /* a\n b */ int y;\n// c\n\n";
    let first = count(file, &c_like());
    let second = count(file, &c_like());
    assert_eq!(first, second);
    assert_eq!(first, Count { code: 2, comment: 1, blank: 1, lines: 4 });
    assert_eq!(first.lines, first.code + first.comment + first.blank);
}

#[test]
fn indentation_does_not_matter() {
    let hash = CommentSyntax::new(vec!["#"], vec![]);
    assert_eq!(
        kinds_of(b"  # indented\n\t# tabbed\nx # tail\n   \n", &hash),
        vec![LineKind::Comment, LineKind::Comment, LineKind::Code, LineKind::Blank]
    );
}

#[test]
fn unicode_whitespace_is_blank() {
    let file = "\u{a0}\u{3000}\t \u{2003}\n\u{2028}x\n\u{85}\u{1680}// c\n";
    assert_eq!(
        kinds_of(file.as_bytes(), &c_like()),
        vec![LineKind::Blank, LineKind::Code, LineKind::Comment]
    );
}

#[test]
fn without_comment_syntax_every_line_is_code_or_blank() {
    let none = CommentSyntax::new(vec![], vec![]);
    assert!(matches!(none, CommentSyntax::NoComments));
    assert_eq!(
        kinds_of(b"// hi\n/* x */\n\nplain\n", &none),
        vec![LineKind::Code, LineKind::Code, LineKind::Blank, LineKind::Code]
    );
}

#[test]
fn block_opener_wins_over_line_marker() {
    let lua = CommentSyntax::new(vec!["--"], vec![("--[[", "]]")]);
    let file = b"-- line comment\n--[[ block\ninside\n]] x = 1\nx = 2 -- trailing\n";
    assert_eq!(
        kinds_of(file, &lua),
        vec![
            LineKind::Comment,
            LineKind::Comment,
            LineKind::Comment,
            LineKind::Code,
            LineKind::Code
        ]
    );
    assert_eq!(count(file, &lua), counted(2, 3, 0));
}

#[test]
fn line_marker_inside_a_block_comment_is_comment() {
    let file = b"/*\n// still comment\n*/\nint x;\n";
    assert_eq!(
        kinds_of(file, &c_like()),
        vec![LineKind::Comment, LineKind::Comment, LineKind::Comment, LineKind::Code]
    );
}

#[test]
fn code_after_a_closed_comment_is_code() {
    let html = CommentSyntax::new(vec![], vec![("<!--", "-->")]);
    assert!(matches!(html, CommentSyntax::BlockOnly(_)));
    assert_eq!(
        kinds_of(b"<!-- a --> <b>\n<!-- a -->   \n<!-- a\n--> <i>\n", &html),
        vec![LineKind::Code, LineKind::Comment, LineKind::Comment, LineKind::Code]
    );
}

#[test]
fn closing_delimiter_outside_a_comment_is_code() {
    assert_eq!(kinds_of(b"*/ x\ny\n", &c_like()), vec![LineKind::Code, LineKind::Code]);
}

#[test]
fn second_opener_inside_a_comment_does_not_nest() {
    let file = b"/* a /* b */ c */\nd\n";
    assert_eq!(kinds_of(file, &c_like()), vec![LineKind::Code, LineKind::Code]);
}

#[test]
fn pairs_are_tried_in_their_order() {
    let vue = CommentSyntax::new(vec!["//"], vec![("/*", "*/"), ("<!--", "-->")]);
    assert_eq!(
        kinds_of(b"<!-- a --> \n/* b */\n<!-- c\nd */ e\nf\n", &vue),
        vec![
            LineKind::Comment,
            LineKind::Comment,
            LineKind::Comment,
            LineKind::Code,
            LineKind::Code
        ]
    );
}

#[test]
fn positions_beside_a_long_character_are_not_tested() {
    assert_eq!(kinds_of("\u{e9} /* c */\n".as_bytes(), &c_like()), vec![LineKind::Comment]);
    assert_eq!(kinds_of("x \u{e9} /* c */\n".as_bytes(), &c_like()), vec![LineKind::Code]);
    assert_eq!(kinds_of("/* \u{e9} */\n".as_bytes(), &c_like()), vec![LineKind::Comment]);
    assert_eq!(kinds_of("int \u{e9} = 1;\n".as_bytes(), &c_like()), vec![LineKind::Code]);
}

#[test]
fn putting_two_files_together_can_change_their_lines() {
    let a = b"/* open\n";
    let b = b"x = 1;\n";
    let mut ab = a.to_vec();
    ab.extend_from_slice(b);
    assert_eq!(count(a, &c_like()), counted(0, 1, 0));
    assert_eq!(count(b, &c_like()), counted(1, 0, 0));
    assert_eq!(count(&ab, &c_like()), counted(0, 2, 0));
}

#[test]
fn one_pass_is_the_plain_count() {
    let file = b"a\n// b\n/* c\n\n d */ e\n";
    assert_eq!(count_passes(file, &[c_like()]), count(file, &c_like()));
    assert_eq!(count(file, &c_like()), counted(2, 2, 1));
}

#[test]
fn no_pass_finds_no_comment() {
    assert_eq!(count_passes(b"a\n// b\n\n", &[]), counted(2, 0, 1));
}

#[test]
fn passes_only_move_lines_from_code_to_comment() {
    let file = b"x\n# a\n=begin\n# b\n\n=end\n";
    let hash = CommentSyntax::new(vec!["#"], vec![]);
    let block = CommentSyntax::new(vec![], vec![("=begin", "=end")]);
    let first = count(file, &hash);
    assert_eq!(first, counted(3, 2, 1));
    let both = count_passes(file, &[hash, block]);
    assert_eq!(both, counted(1, 4, 1));
    assert_eq!(both.code, first.code - (both.comment - first.comment));
}

#[test]
fn kinds_are_combined_line_by_line() {
    let a = vec![LineKind::Code, LineKind::Comment, LineKind::Blank, LineKind::Code];
    let b = vec![LineKind::Comment, LineKind::Code, LineKind::Blank, LineKind::Code];
    assert_eq!(
        loc::combine_kinds(&a, &b),
        vec![LineKind::Comment, LineKind::Comment, LineKind::Blank, LineKind::Code]
    );
}

#[test]
fn syntax_holds_what_it_was_given() {
    let s = CommentSyntax::new(vec!["#", "//"], vec![("/*", "*/"), ("<!--", "-->")]);
    assert!(matches!(s, CommentSyntax::LineAndBlock(_, _)));
    assert_eq!(s.marker_count(), 2);
    assert_eq!(s.marker(0), "#");
    assert_eq!(s.marker(1), "//");
    assert_eq!(s.pair_count(), 2);
    assert_eq!(s.pair(0), ("/*", "*/"));
    assert_eq!(s.pair(1), ("<!--", "-->"));
    assert!(s.well_formed());
    let line_only = CommentSyntax::new(vec!["#"], vec![]);
    assert!(matches!(line_only, CommentSyntax::LineOnly(_)));
    assert_eq!(line_only.pair_count(), 0);
}

#[test]
fn empty_marker_or_delimiter_is_not_well_formed() {
    assert!(!CommentSyntax::new(vec!["#", ""], vec![]).well_formed());
    assert!(!CommentSyntax::new(vec![], vec![("/*", "")]).well_formed());
    assert!(!CommentSyntax::new(vec![], vec![("", "*/")]).well_formed());
    assert!(CommentSyntax::new(vec![], vec![]).well_formed());
}
