use loc::{
    check_shebang, count_file, counter_config_for_lang, lang_from_ext, lang_from_lower,
    reads_first_line, told_by_name, CommentSyntax, Count, Lang,
};

#[test]
fn names_of_languages() {
    assert_eq!(Lang::Rust.to_s(), "Rust");
    assert_eq!(Lang::CSharp.to_s(), "C#");
    assert_eq!(Lang::Text.to_s(), "Plain Text");
    assert_eq!(Lang::CCppHeader.to_s(), "C/C++ Header");
    assert_eq!(Lang::VimScript.to_s(), "VimL");
    assert_eq!(Lang::Unrecognized.to_s(), "Unrecognized");
}

#[test]
fn language_by_extension() {
    assert_eq!(lang_from_ext("main.rs", Some("rs"), b""), Lang::Rust);
    assert_eq!(lang_from_ext("a.c", Some("c"), b""), Lang::C);
    assert_eq!(lang_from_ext("a.h", Some("h"), b""), Lang::CCppHeader);
    assert_eq!(lang_from_ext("a.c++", Some("c++"), b""), Lang::Cpp);
    assert_eq!(lang_from_ext("x.hx", Some("hx"), b""), Lang::Haxe);
    assert_eq!(lang_from_ext("x.4th", Some("4th"), b""), Lang::Forth);
    assert_eq!(lang_from_ext("notes.xyz", Some("xyz"), b""), Lang::Unrecognized);
}

#[test]
fn upper_case_is_read_as_lower_case() {
    assert_eq!(lang_from_ext("MAIN.RS", Some("RS"), b""), Lang::Rust);
    assert_eq!(lang_from_ext("Build.Gradle.KTS", Some("KTS"), b""), Lang::Kotlin);
    assert_eq!(lang_from_ext("DOCKERFILE", None, b""), Lang::Docker);
}

#[test]
fn files_known_by_their_names() {
    assert_eq!(lang_from_ext("Makefile", None, b""), Lang::Makefile);
    assert_eq!(lang_from_ext("GNUmakefile.in", Some("in"), b""), Lang::Makefile);
    assert_eq!(lang_from_ext("Dockerfile", None, b""), Lang::Docker);
    assert_eq!(lang_from_ext("CMakeLists.txt", Some("txt"), b""), Lang::CMake);
    assert_eq!(lang_from_ext("lists.txt", Some("txt"), b""), Lang::Text);
}

#[test]
fn files_known_by_their_first_line() {
    assert_eq!(lang_from_ext("script", None, b"#!/usr/bin/env python\nprint(1)\n"), Lang::Python);
    assert_eq!(lang_from_ext("script", None, b"#!/bin/sh\r\necho\r\n"), Lang::BourneShell);
    assert_eq!(lang_from_ext("script", None, b"#!/usr/bin/env node"), Lang::JavaScript);
    assert_eq!(lang_from_ext("script", None, b"#!/usr/bin/ruby\n"), Lang::Ruby);
    assert_eq!(lang_from_ext("script", None, b"#!/bin/sh\r"), Lang::Unrecognized);
    assert_eq!(lang_from_ext("script", None, b" #!/bin/sh\n"), Lang::Unrecognized);
    assert_eq!(lang_from_ext("script", None, b""), Lang::Unrecognized);
    assert_eq!(lang_from_ext("script", None, &[b'#', b'!', 0xff, b'\n']), Lang::Unrecognized);
}

#[test]
fn whole_file_must_be_text_for_its_first_line_to_count() {
    let mut file = b"#!/bin/sh\n".to_vec();
    file.push(0xff);
    assert_eq!(lang_from_ext("script", None, &file), Lang::Unrecognized);
    assert_eq!(check_shebang(&file), None);
}

#[test]
fn extension_goes_before_first_line() {
    assert_eq!(lang_from_ext("x.py", Some("py"), b"#!/bin/sh\n"), Lang::Python);
}

#[test]
fn name_without_extension_is_tried_as_extension() {
    assert_eq!(lang_from_ext("h", None, b""), Lang::CCppHeader);
    assert_eq!(lang_from_ext("rs", None, b"fn main() {}\n"), Lang::Rust);
}

#[test]
fn lower_case_names_are_taken_as_they_are() {
    assert_eq!(lang_from_lower("a.rb", Some("rb"), b""), Lang::Ruby);
    assert_eq!(lang_from_lower("A.RB", Some("RB"), b""), Lang::Unrecognized);
    assert_eq!(lang_from_lower("my-makefile", None, b""), Lang::Makefile);
}

#[test]
fn first_lines_that_name_an_interpreter() {
    assert_eq!(check_shebang(b"#!python3\n"), Some("py"));
    assert_eq!(check_shebang(b"#!/bin/bash"), Some("sh"));
    assert_eq!(check_shebang(b"#!/usr/bin/env perl6\nuse v6;\n"), Some("pl"));
    assert_eq!(check_shebang(b"#!/usr/bin/env runhaskell\n"), Some("hs"));
    assert_eq!(check_shebang(b"#!/usr/bin/csh\n"), Some("csh"));
    assert_eq!(check_shebang(b"#!/usr/bin/env ruby\n"), Some("rb"));
    assert_eq!(check_shebang(b"#!/usr/bin/env python -u\n"), None);
    assert_eq!(check_shebang(b"\n#!/bin/sh\n"), None);
    assert_eq!(check_shebang(b""), None);
}

fn syntax_parts(s: &CommentSyntax) -> (Vec<&'static str>, Vec<(&'static str, &'static str)>) {
    let mut markers = Vec::new();
    for i in 0..s.marker_count() {
        markers.push(s.marker(i));
    }
    let mut pairs = Vec::new();
    for i in 0..s.pair_count() {
        pairs.push(s.pair(i));
    }
    (markers, pairs)
}

#[test]
fn comment_syntax_of_languages() {
    assert_eq!(
        syntax_parts(&counter_config_for_lang(Lang::Rust)),
        (vec!["//"], vec![("/*", "*/")])
    );
    assert_eq!(syntax_parts(&counter_config_for_lang(Lang::Ada)), (vec!["--"], vec![]));
    assert_eq!(
        syntax_parts(&counter_config_for_lang(Lang::Lua)),
        (vec!["--"], vec![("--[[", "]]")])
    );
    assert_eq!(
        syntax_parts(&counter_config_for_lang(Lang::Php)),
        (vec!["#", "//"], vec![("/*", "*/")])
    );
    assert_eq!(
        syntax_parts(&counter_config_for_lang(Lang::FortranLegacy)),
        (vec!["c", "C", "!", "*"], vec![])
    );
    assert_eq!(
        syntax_parts(&counter_config_for_lang(Lang::Isabelle)),
        (
            vec!["--"],
            vec![("{*", "*}"), ("(*", "*)"), ("\u{2039}", "\u{203a}"), ("\\<open>", "\\<close>")]
        )
    );
    assert_eq!(syntax_parts(&counter_config_for_lang(Lang::Forth)), (vec!["\\"], vec![("(", ")")]));
    assert_eq!(syntax_parts(&counter_config_for_lang(Lang::VimScript)), (vec!["\""], vec![]));
    assert_eq!(syntax_parts(&counter_config_for_lang(Lang::OCaml)), (vec![], vec![("(*", "*)")]));
    assert_eq!(
        syntax_parts(&counter_config_for_lang(Lang::AspNet)),
        (vec![], vec![("<!--", "-->"), ("<%--", "-->")])
    );
}

#[test]
fn comment_syntax_has_the_fitting_variant() {
    assert!(matches!(counter_config_for_lang(Lang::Markdown), CommentSyntax::NoComments));
    assert!(matches!(counter_config_for_lang(Lang::Json), CommentSyntax::NoComments));
    assert!(matches!(counter_config_for_lang(Lang::Yaml), CommentSyntax::LineOnly(_)));
    assert!(matches!(counter_config_for_lang(Lang::Html), CommentSyntax::BlockOnly(_)));
    assert!(matches!(counter_config_for_lang(Lang::Go), CommentSyntax::LineAndBlock(_, _)));
}

#[test]
fn comment_syntax_of_languages_is_well_formed() {
    let langs = [
        Lang::ActionScript,
        Lang::Asp,
        Lang::CMake,
        Lang::CoffeeScript,
        Lang::Handlebars,
        Lang::Isabelle,
        Lang::Pascal,
        Lang::Python,
        Lang::Text,
        Lang::Vue,
        Lang::Zsh,
        Lang::Haxe,
    ];
    for lang in langs.iter() {
        assert!(counter_config_for_lang(*lang).well_formed());
    }
}

#[test]
fn file_of_a_known_language_is_counted() {
    assert_eq!(
        count_file("a.c", Some("c"), b"int x;\n// c\n"),
        Some((Lang::C, Count { code: 1, comment: 1, blank: 0, lines: 2 }))
    );
    assert_eq!(
        count_file("run", None, b"#!/bin/sh\n\necho hi # there\n"),
        Some((Lang::BourneShell, Count { code: 1, comment: 1, blank: 1, lines: 3 }))
    );
    assert_eq!(
        count_file("README.md", Some("md"), b"# Title\n\ntext\n"),
        Some((Lang::Markdown, Count { code: 2, comment: 0, blank: 1, lines: 3 }))
    );
}

#[test]
fn file_of_no_known_language_is_not_counted() {
    assert_eq!(count_file("a.unknown", Some("unknown"), b"int x;\n"), None);
    assert_eq!(count_file("LICENSE", None, b"text\n"), None);
}

#[test]
fn file_that_is_no_text_counts_nothing() {
    assert_eq!(count_file("a.c", Some("c"), &[b'a', b'\n', 0xc0, b'\n']), Some((Lang::C, Count::default())));
}

#[test]
fn contents_are_read_only_where_the_name_tells_nothing() {
    assert!(reads_first_line("script", None));
    assert!(reads_first_line("LICENSE", None));
    assert!(!reads_first_line("main.rs", Some("rs")));
    assert!(!reads_first_line("notes.xyz", Some("xyz")));
    assert!(!reads_first_line("Makefile", None));
    assert!(!reads_first_line("GNUmakefile", None));
    assert!(!reads_first_line("Dockerfile", None));
    assert!(!reads_first_line("dockerfile", None));
    assert!(reads_first_line("dockerfiles", None));
    assert!(reads_first_line("cmakelists", None));
}

#[test]
fn names_in_lower_case_that_tell_the_language() {
    assert!(told_by_name("makefile", None));
    assert!(told_by_name("gnumakefile.am", None));
    assert!(told_by_name("dockerfile", None));
    assert!(told_by_name("cmakelists.txt", None));
    assert!(told_by_name("anything", Some("x")));
    assert!(!told_by_name("Makefile", None));
    assert!(!told_by_name("dockerfile2", None));
    assert!(!told_by_name("", None));
}
