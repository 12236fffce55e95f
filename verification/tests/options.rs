use loc::{combine_patterns, keeps, walk_flags};

#[test]
fn restrictions_are_lifted_step_by_step() {
    assert_eq!(walk_flags(0), (true, true));
    assert_eq!(walk_flags(1), (false, true));
    assert_eq!(walk_flags(2), (false, false));
    assert_eq!(walk_flags(3), (false, false));
    assert_eq!(walk_flags(u64::MAX), (false, false));
}

#[test]
fn files_are_kept_by_what_they_match() {
    assert!(keeps(None, None));
    assert!(keeps(Some(true), None));
    assert!(!keeps(Some(false), None));
    assert!(keeps(None, Some(false)));
    assert!(!keeps(None, Some(true)));
    assert!(keeps(Some(true), Some(false)));
    assert!(!keeps(Some(true), Some(true)));
    assert!(!keeps(Some(false), Some(false)));
    assert!(!keeps(Some(false), Some(true)));
}

#[test]
fn patterns_are_put_together_with_bars() {
    assert_eq!(combine_patterns(&vec![]), "");
    assert_eq!(combine_patterns(&vec!["a".to_string()]), "(a)");
    assert_eq!(combine_patterns(&vec!["a".to_string(), "b|c".to_string()]), "(a)|(b|c)");
    assert_eq!(
        combine_patterns(&vec!["x".to_string(), "".to_string(), "\\.rs$".to_string()]),
        "(x)|()|(\\.rs$)"
    );
}
