use kamp::split::{decide, decode, quote, render, split_words, QueryKind, SplitType};

#[test]
fn policy_table() {
    assert_eq!(SplitType::new(false, false, false, false), SplitType::Whole);
    assert_eq!(SplitType::new(true, false, false, false), SplitType::Whole);
    assert_eq!(SplitType::new(false, true, false, false), SplitType::Lines { quoted: false });
    assert_eq!(SplitType::new(false, false, false, true), SplitType::Lines { quoted: false });
    assert_eq!(SplitType::new(true, true, false, false), SplitType::Lines { quoted: true });
    assert_eq!(SplitType::new(false, false, true, false), SplitType::Nul { quoted: false });
    assert_eq!(SplitType::new(true, true, true, true), SplitType::Nul { quoted: true });
}

#[test]
fn policy_is_the_same_on_equal_inputs() {
    for bits in 0..16u32 {
        let (q, s, n, m) = (bits & 1 != 0, bits & 2 != 0, bits & 4 != 0, bits & 8 != 0);
        let first = decide(QueryKind::Opt, q, s, n, m);
        let _ = decide(QueryKind::Val, !q, !s, !n, !m);
        assert_eq!(decide(QueryKind::Opt, q, s, n, m), first);
    }
}

#[test]
fn shell_queries_are_never_split() {
    for bits in 0..16u32 {
        let (q, s, n, m) = (bits & 1 != 0, bits & 2 != 0, bits & 4 != 0, bits & 8 != 0);
        assert_eq!(decide(QueryKind::Shell, q, s, n, m), SplitType::Whole);
    }
    assert_eq!(decide(QueryKind::Reg, false, true, false, false), SplitType::Lines { quoted: false });
}

#[test]
fn whole_keeps_a_multi_line_value() {
    let raw = "first line\nsecond 'line'\n\nlast";
    assert_eq!(decode(raw, SplitType::Whole), vec![raw.to_string()]);
}

#[test]
fn words_are_unquoted() {
    let raw = "'a b' 'it''s' plain\n'x'";
    assert_eq!(
        decode(raw, SplitType::Lines { quoted: false }),
        vec!["a b".to_string(), "it's".to_string(), "plain".to_string(), "x".to_string()]
    );
    assert_eq!(
        decode(raw, SplitType::Nul { quoted: false }),
        vec!["a b".to_string(), "it's".to_string(), "plain".to_string(), "x".to_string()]
    );
}

#[test]
fn quoted_words_keep_their_quotes() {
    let raw = "'a b' 'it''s' 'multi\nline'";
    assert_eq!(
        decode(raw, SplitType::Lines { quoted: true }),
        vec!["'a b'".to_string(), "'it''s'".to_string(), "'multi\nline'".to_string()]
    );
}

#[test]
fn empty_and_unterminated_words() {
    assert_eq!(split_words(""), Vec::<String>::new());
    assert_eq!(split_words("  \n "), Vec::<String>::new());
    assert_eq!(split_words("''"), vec![String::new()]);
    assert_eq!(split_words("'open word"), vec!["open word".to_string()]);
    assert_eq!(split_words("'a'b"), vec!["a".to_string(), "b".to_string()]);
}

#[test]
fn quote_doubles_quotes() {
    assert_eq!(quote("it's"), "'it''s'");
    assert_eq!(quote(""), "''");
}

#[test]
fn render_uses_the_separator() {
    let items = vec!["a".to_string(), "b c".to_string()];
    assert_eq!(render(&items, SplitType::Lines { quoted: false }), "a\nb c\n");
    assert_eq!(render(&items, SplitType::Whole), "a\nb c\n");
    assert_eq!(render(&items, SplitType::Nul { quoted: true }), "a\0b c\0");
    assert_eq!(render(&Vec::new(), SplitType::Whole), "");
}

#[test]
fn quoted_words_split_back() {
    let words = vec!["it's".to_string(), "two words".to_string(), "line\nbreak".to_string(), String::new()];
    let joined: Vec<String> = words.iter().map(|w| quote(w)).collect();
    assert_eq!(split_words(&joined.join(" ")), words);
}
