use kamp::selector::{is_star, to_csv_buffers_or_asterisk};

fn names(v: &[&str]) -> Vec<String> {
    v.iter().map(|s| s.to_string()).collect()
}

#[test]
fn test_to_csv_buffers_or_asterisk() {
    assert_eq!(to_csv_buffers_or_asterisk(vec![]), (None, false));
    assert_eq!(
        to_csv_buffers_or_asterisk(vec!["*".into()]),
        (Some("*".into()), true)
    );
    assert_eq!(
        to_csv_buffers_or_asterisk(vec!["*".into(), "a".into()]),
        (Some("*".into()), true)
    );
    assert_eq!(
        to_csv_buffers_or_asterisk(vec!["a".into(), "*".into()]),
        (Some("'a'".into()), false)
    );
    assert_eq!(
        to_csv_buffers_or_asterisk(vec!["a".into()]),
        (Some("'a'".into()), false)
    );
    assert_eq!(
        to_csv_buffers_or_asterisk(vec!["a".into(), "b".into()]),
        (Some("'a,b'".into()), true)
    );
}

#[test]
fn three_names_are_joined_in_order() {
    assert_eq!(
        to_csv_buffers_or_asterisk(names(&["a", "b", "c"])),
        (Some("'a,b,c'".into()), true)
    );
}

#[test]
fn inner_wildcards_are_dropped() {
    assert_eq!(
        to_csv_buffers_or_asterisk(names(&["x.rs", "*", "y.rs", "*"])),
        (Some("'x.rs,y.rs'".into()), true)
    );
}

#[test]
fn leading_wildcard_ignores_the_rest() {
    assert_eq!(
        to_csv_buffers_or_asterisk(names(&["*", "a", "b"])),
        (Some("*".into()), true)
    );
}

#[test]
fn star_is_only_the_single_asterisk() {
    assert!(is_star("*"));
    assert!(!is_star("**"));
    assert!(!is_star(""));
    assert!(!is_star("a"));
}
