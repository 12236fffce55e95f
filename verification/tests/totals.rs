use loc::{Count, Lang, LangTotal, LineKind, Totals};

fn c(code: u32, comment: u32, blank: u32) -> Count {
    Count { code, comment, blank, lines: code + comment + blank }
}

#[test]
fn default_count_is_zero() {
    assert_eq!(Count::default(), Count { code: 0, comment: 0, blank: 0, lines: 0 });
}

#[test]
fn merge_adds_each_counter() {
    let mut a = Count { code: 1, comment: 2, blank: 3, lines: 6 };
    a.merge(&Count { code: 10, comment: 20, blank: 30, lines: 60 });
    assert_eq!(a, Count { code: 11, comment: 22, blank: 33, lines: 66 });
}

#[test]
fn merge_is_commutative_and_associative() {
    let a = c(1, 2, 3);
    let b = c(40, 50, 60);
    let d = c(700, 800, 900);
    let mut ab = a;
    ab.merge(&b);
    let mut ba = b;
    ba.merge(&a);
    assert_eq!(ab, ba);
    let mut ab_d = ab;
    ab_d.merge(&d);
    let mut bd = b;
    bd.merge(&d);
    let mut a_bd = a;
    a_bd.merge(&bd);
    assert_eq!(ab_d, a_bd);
    assert_eq!(ab_d, c(741, 852, 963));
}

#[test]
fn count_knows_what_fits() {
    let a = Count { code: u32::MAX - 5, comment: 1, blank: 1, lines: u32::MAX - 3 };
    assert!(a.fits(&Count { code: 1, comment: 1, blank: 1, lines: 3 }));
    assert!(!a.fits(&Count { code: 1, comment: 1, blank: 2, lines: 4 }));
    assert!(!a.fits(&Count { code: 6, comment: 0, blank: 0, lines: 0 }));
    assert!(a.fits(&Count::default()));
}

#[test]
fn add_line_counts_one_line() {
    let mut a = Count::default();
    a.add_line(LineKind::Code);
    a.add_line(LineKind::Blank);
    a.add_line(LineKind::Code);
    a.add_line(LineKind::Comment);
    assert_eq!(a, Count { code: 2, comment: 1, blank: 1, lines: 4 });
}

#[test]
fn lang_total_counts_files() {
    let mut t = LangTotal::new();
    assert_eq!(t, LangTotal { files: 0, count: Count::default() });
    t.add_file(&c(1, 2, 3));
    t.add_file(&c(4, 5, 6));
    assert_eq!(t, LangTotal { files: 2, count: c(5, 7, 9) });
    let mut u = LangTotal { files: 3, count: c(1, 1, 1) };
    u.merge(&t);
    assert_eq!(u, LangTotal { files: 5, count: c(6, 8, 10) });
}

#[test]
fn lang_total_knows_what_fits() {
    let t = LangTotal { files: 1, count: Count { code: u32::MAX - 1, comment: 0, blank: 0, lines: u32::MAX - 1 } };
    assert!(t.fits(&c(1, 0, 0)));
    assert!(!t.fits(&c(2, 0, 0)));
    let full = LangTotal { files: u32::MAX, count: Count::default() };
    assert!(!full.fits(&Count::default()));
}

#[test]
fn totals_keep_one_total_for_each_language() {
    let mut t = Totals::new();
    assert_eq!(t.len(), 0);
    assert_eq!(t.get(Lang::Rust), LangTotal { files: 0, count: Count::default() });
    t.merge(Lang::Rust, &c(10, 1, 2));
    t.merge(Lang::C, &c(5, 5, 5));
    t.merge(Lang::Rust, &c(1, 1, 1));
    assert_eq!(t.len(), 2);
    assert_eq!(t.entry(0), (Lang::Rust, LangTotal { files: 2, count: c(11, 2, 3) }));
    assert_eq!(t.entry(1), (Lang::C, LangTotal { files: 1, count: c(5, 5, 5) }));
    assert_eq!(t.get(Lang::Rust), LangTotal { files: 2, count: c(11, 2, 3) });
    assert_eq!(t.get(Lang::C), LangTotal { files: 1, count: c(5, 5, 5) });
    assert_eq!(t.get(Lang::Go), LangTotal { files: 0, count: Count::default() });
    assert_eq!(t.find(Lang::C), 1);
    assert_eq!(t.find(Lang::Go), 2);
    assert_eq!(t.grand_total(), LangTotal { files: 3, count: c(16, 7, 8) });
}

#[test]
fn totals_do_not_depend_on_the_order_of_files() {
    let files = [
        (Lang::Rust, c(10, 1, 2)),
        (Lang::C, c(5, 5, 5)),
        (Lang::Rust, c(1, 1, 1)),
        (Lang::Lua, c(0, 7, 0)),
    ];
    let orders: [[usize; 4]; 4] = [[0, 1, 2, 3], [3, 2, 1, 0], [1, 3, 0, 2], [2, 0, 3, 1]];
    let mut seen: Vec<(LangTotal, LangTotal, LangTotal, LangTotal)> = Vec::new();
    for order in orders.iter() {
        let mut t = Totals::new();
        for &i in order.iter() {
            assert!(t.accepts(&files[i].1));
            t.merge(files[i].0, &files[i].1);
        }
        seen.push((t.get(Lang::Rust), t.get(Lang::C), t.get(Lang::Lua), t.grand_total()));
    }
    for s in seen.iter() {
        assert_eq!(*s, seen[0]);
    }
    assert_eq!(seen[0].0, LangTotal { files: 2, count: c(11, 2, 3) });
    assert_eq!(seen[0].3, LangTotal { files: 4, count: c(16, 14, 8) });
}

#[test]
fn totals_refuse_what_does_not_fit() {
    let mut t = Totals::new();
    t.merge(Lang::C, &Count { code: u32::MAX, comment: 0, blank: 0, lines: u32::MAX });
    assert!(!t.accepts(&c(1, 0, 0)));
    assert!(t.accepts(&Count::default()));
}

#[test]
fn count_of_kinds_tallies_each_kind() {
    let kinds = vec![
        LineKind::Code,
        LineKind::Comment,
        LineKind::Code,
        LineKind::Blank,
        LineKind::Code,
        LineKind::Comment,
    ];
    assert_eq!(Count::of_kinds(&kinds), Count { code: 3, comment: 2, blank: 1, lines: 6 });
    assert_eq!(Count::of_kinds(&Vec::new()), Count::default());
}
