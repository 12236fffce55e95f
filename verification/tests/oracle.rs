use loc::{classify, count, CommentSyntax, Count, LineKind};

// A second classifier, written with the string functions of std, to hold the
// library against.
fn kinds_by_std(
    file: &[u8],
    markers: &[&str],
    pairs: &[(&str, &str)],
) -> Option<Vec<LineKind>> {
    let mut lines: Vec<&[u8]> = file.split(|b| *b == b'\n').collect();
    if lines.last().map(|l| l.is_empty()).unwrap_or(false) {
        lines.pop();
    }
    let mut kinds = Vec::new();
    let mut in_block = false;
    for raw in lines {
        let line = match std::str::from_utf8(raw) {
            Ok(s) => s.trim_start(),
            Err(_) => return None,
        };
        if line.is_empty() {
            kinds.push(LineKind::Blank);
            continue;
        }
        if !in_block
            && markers.iter().any(|m| line.starts_with(m))
            && !pairs.iter().any(|(open, _)| line.starts_with(open))
        {
            kinds.push(LineKind::Comment);
            continue;
        }
        if pairs.is_empty() {
            kinds.push(LineKind::Code);
            continue;
        }
        if !in_block && !pairs.iter().any(|(open, close)| line.contains(open) || line.contains(close))
        {
            kinds.push(LineKind::Code);
            continue;
        }
        let mut pos = 0;
        let mut found_code = false;
        'scan: while pos < line.len() {
            for (open, close) in pairs.iter() {
                let width = open.len().max(close.len());
                for i in pos..=pos + width {
                    if i < line.len() && !line.is_char_boundary(i) {
                        pos += 1;
                        continue 'scan;
                    }
                }
                if !in_block && line[pos..].starts_with(open) {
                    in_block = true;
                    pos += open.len();
                    continue 'scan;
                }
                if in_block && line[pos..].starts_with(close) {
                    in_block = false;
                    pos += close.len();
                    continue 'scan;
                }
            }
            if !in_block && !line[pos..].chars().next().unwrap().is_whitespace() {
                found_code = true;
            }
            pos += 1;
        }
        kinds.push(if found_code { LineKind::Code } else { LineKind::Comment });
    }
    Some(kinds)
}

struct Dice(u64);

impl Dice {
    fn roll(&mut self, sides: usize) -> usize {
        self.0 = self.0.wrapping_mul(6364136223846793005).wrapping_add(1442695040888963407);
        ((self.0 >> 33) as usize) % sides
    }
}

fn tally(kinds: &[LineKind]) -> Count {
    let mut c = Count::default();
    for k in kinds {
        c.add_line(*k);
    }
    c
}

fn hold_against_std(markers: Vec<&'static str>, pairs: Vec<(&'static str, &'static str)>, seed: u64) {
    let pieces: [&[u8]; 24] = [
        b"a", b" ", b"\t", b"/", b"*", b"-", b"[", b"]", b"#", b"\n", b"\n", b"<", b"!", b">",
        b"=", b"(", b")", "\u{e9}".as_bytes(), "\u{2039}".as_bytes(), "\u{203a}".as_bytes(),
        "\u{a0}".as_bytes(), "\u{3000}".as_bytes(), "\u{1f600}".as_bytes(), b"\r",
    ];
    let syntax = CommentSyntax::new(markers.clone(), pairs.clone());
    let mut dice = Dice(seed);
    for _ in 0..4000 {
        let mut file: Vec<u8> = Vec::new();
        for _ in 0..dice.roll(40) {
            file.extend_from_slice(pieces[dice.roll(pieces.len())]);
        }
        let expected = kinds_by_std(&file, &markers, &pairs);
        assert_eq!(classify(&file, &syntax), expected, "file {:?}", file);
        let counted = count(&file, &syntax);
        match expected {
            Some(kinds) => assert_eq!(counted, tally(&kinds)),
            None => assert_eq!(counted, Count::default()),
        }
        assert_eq!(counted.lines, counted.code + counted.comment + counted.blank);
    }
}

#[test]
fn c_like_files_against_std() {
    hold_against_std(vec!["//"], vec![("/*", "*/")], 1);
}

#[test]
fn lua_files_against_std() {
    hold_against_std(vec!["--"], vec![("--[[", "]]")], 2);
}

#[test]
fn hash_files_against_std() {
    hold_against_std(vec!["#"], vec![], 3);
}

#[test]
fn two_pair_files_against_std() {
    hold_against_std(vec![], vec![("<!--", "-->"), ("(*", "*)")], 4);
}

#[test]
fn long_character_delimiters_against_std() {
    hold_against_std(vec!["--", "\u{e9}"], vec![("\u{2039}", "\u{203a}"), ("(", ")")], 5);
}

#[test]
fn files_without_syntax_against_std() {
    hold_against_std(vec![], vec![], 6);
}

#[test]
fn bytes_that_are_no_text_against_std() {
    let syntax = CommentSyntax::new(vec!["//"], vec![("/*", "*/")]);
    let mut dice = Dice(7);
    for _ in 0..4000 {
        let mut file: Vec<u8> = Vec::new();
        for _ in 0..dice.roll(12) {
            let b = match dice.roll(8) {
                0 => b'\n',
                1 => b'/',
                2 => b'*',
                3 => b' ',
                4 => 0xc3,
                5 => 0xa9,
                6 => 0xe2,
                _ => dice.roll(256) as u8,
            };
            file.push(b);
        }
        let expected = kinds_by_std(&file, &["//"], &[("/*", "*/")]);
        assert_eq!(classify(&file, &syntax), expected, "file {:?}", file);
    }
}

#[test]
fn whitespace_is_what_std_takes_for_whitespace() {
    let syntax = CommentSyntax::new(vec![], vec![]);
    let mut c: u32 = 0;
    while c <= 0x10ffff {
        if let Some(ch) = char::from_u32(c) {
            if ch != '\n' {
                let mut buf = [0u8; 4];
                let line = ch.encode_utf8(&mut buf);
                let expected = if ch.is_whitespace() { LineKind::Blank } else { LineKind::Code };
                assert_eq!(classify(line.as_bytes(), &syntax), Some(vec![expected]), "char {:x}", c);
            }
        }
        c += 1;
    }
}

#[test]
fn short_byte_strings_are_text_where_std_takes_them_for_text() {
    for a in 0..=255u8 {
        assert_eq!(loc::text::is_utf8(&[a]), std::str::from_utf8(&[a]).is_ok());
        for b in 0..=255u8 {
            assert_eq!(loc::text::is_utf8(&[a, b]), std::str::from_utf8(&[a, b]).is_ok());
        }
    }
}

#[test]
fn longer_byte_strings_are_text_where_std_takes_them_for_text() {
    let leads: [u8; 12] = [0x41, 0xc2, 0xdf, 0xe0, 0xe1, 0xed, 0xee, 0xef, 0xf0, 0xf3, 0xf4, 0xf5];
    let nexts: [u8; 12] = [0x41, 0x7f, 0x80, 0x8f, 0x90, 0x9f, 0xa0, 0xbf, 0xc0, 0xc2, 0xf4, 0xff];
    for a in leads.iter() {
        for b in nexts.iter() {
            for c in nexts.iter() {
                for d in nexts.iter() {
                    for e in [0x41u8, 0x80, 0xc2].iter() {
                        let bytes = [*a, *b, *c, *d, *e];
                        for n in 3..=5 {
                            assert_eq!(
                                loc::text::is_utf8(&bytes[..n]),
                                std::str::from_utf8(&bytes[..n]).is_ok(),
                                "bytes {:x?}",
                                &bytes[..n]
                            );
                        }
                    }
                }
            }
        }
    }
}

#[test]
fn every_character_is_text() {
    let mut all = String::new();
    let mut c: u32 = 0;
    while c <= 0x10ffff {
        if let Some(ch) = char::from_u32(c) {
            all.push(ch);
        }
        c += 0x11;
    }
    assert!(loc::text::is_utf8(all.as_bytes()));
    assert!(loc::text::is_utf8(b""));
}
