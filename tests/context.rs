use kamp::context::{decimal, join_words, poll_query, resolve_target, Context, Poll};
use kamp::error::Error;
use kamp::split::SplitType;

fn ctx(session: &str, client: Option<&str>) -> Context {
    Context::new(session.to_string(), client.map(|c| c.to_string())).unwrap()
}

#[test]
fn context_needs_a_session() {
    assert!(matches!(Context::new(String::new(), None), Err(Error::NoSession)));
    let c = ctx("s1", Some(""));
    assert_eq!(c.session(), "s1");
    assert_eq!(c.client(), None);
    assert_eq!(ctx("s1", Some("c1")).client(), Some("c1"));
}

#[test]
fn explicit_session_wins() {
    let s = |v: &str| Some(v.to_string());
    assert_eq!(resolve_target(s("a"), None, s("env"), s("ec")), (s("a"), None));
    assert_eq!(resolve_target(s("a"), s("c"), s("env"), s("ec")), (s("a"), s("c")));
    assert_eq!(resolve_target(None, s(""), s("env"), s("ec")), (s("env"), s("ec")));
    assert_eq!(resolve_target(None, s("c"), s("env"), s("ec")), (s("env"), s("c")));
    assert_eq!(resolve_target(None, None, None, s("")), (None, None));
}

#[test]
fn empty_command_is_refused() {
    let c = ctx("s", Some("c"));
    assert_eq!(c.send_script("", &None), Err(Error::CommandRequired));
    assert_eq!(join_words(&vec![]), "");
    assert_eq!(c.send_script(&join_words(&vec![]), &None), Err(Error::CommandRequired));
}

#[test]
fn send_scopes_the_command() {
    assert_eq!(ctx("s", None).send_script("echo hi", &None).unwrap(), "echo hi");
    assert_eq!(
        ctx("s", Some("c")).send_script("echo hi", &Some("'a,b'".to_string())).unwrap(),
        "evaluate-commands -client c %{ evaluate-commands -buffer 'a,b' %{ echo hi } }"
    );
    assert_eq!(
        ctx("s", None).send_script("w", &Some("*".to_string())).unwrap(),
        "evaluate-commands -buffer * %{ w }"
    );
}

#[test]
fn join_words_uses_single_spaces() {
    let w = vec!["echo".to_string(), "a".to_string(), "b".to_string()];
    assert_eq!(join_words(&w), "echo a b");
}

#[test]
fn kill_carries_the_exit_status() {
    let c = ctx("s", None);
    assert_eq!(c.kill_script(None), "kill");
    assert_eq!(c.kill_script(Some(3)), "kill 3");
    assert_eq!(ctx("s", Some("c")).kill_script(Some(-12)), "evaluate-commands -client c %{ kill -12 }");
}

#[test]
fn decimal_forms() {
    assert_eq!(decimal(0), "0");
    assert_eq!(decimal(1907), "1907");
    assert_eq!(decimal(i32::MAX), "2147483647");
    assert_eq!(decimal(i32::MIN), "-2147483648");
}

#[test]
fn query_script_text() {
    let c = ctx("s", None);
    let script = c.query_script(
        kamp::split::QueryKind::Opt,
        "filetype",
        &Some("'a'".to_string()),
        SplitType::Whole,
        "/tmp/out",
        "/tmp/err",
    );
    assert_eq!(
        script,
        "try %{ declare-option -hidden str-list kamp_result }\n\
         set-option global kamp_result\n\
         try %{\n\
         evaluate-commands -buffer 'a' %{ set-option -add global kamp_result %opt{filetype} }\n\
         echo -quoting raw -to-file '/tmp/out' %opt{kamp_result}\n\
         } catch %{\n\
         echo -quoting raw -to-file '/tmp/err' %val{error}\n\
         }\n"
    );
    let split = c.query_script(
        kamp::split::QueryKind::Shell,
        "ls",
        &None,
        SplitType::Lines { quoted: false },
        "o",
        "e",
    );
    assert!(split.contains("set-option -add global kamp_result %sh{ls}\necho -quoting kakoune -to-file 'o'"));
}

#[test]
fn poll_times_out_at_the_bound() {
    assert!(matches!(poll_query(SplitType::Whole, None, None, 999, 1000), Poll::Pending));
    assert!(matches!(
        poll_query(SplitType::Whole, None, None, 1000, 1000),
        Poll::Done(Err(Error::QueryTimeout))
    ));
    assert!(matches!(
        poll_query(SplitType::Whole, None, None, 5000, 1000),
        Poll::Done(Err(Error::QueryTimeout))
    ));
}

#[test]
fn poll_reports_editor_errors() {
    match poll_query(SplitType::Whole, Some("x".into()), Some("no such option".into()), 0, 10) {
        Poll::Done(Err(Error::EmptyResult(m))) => assert_eq!(m, "no such option"),
        _ => panic!("expected an editor error"),
    }
}

#[test]
fn poll_returns_a_multi_line_value_whole() {
    match poll_query(SplitType::Whole, Some("one\ntwo\n".into()), None, 0, 10) {
        Poll::Done(Ok(items)) => assert_eq!(items, vec!["one\ntwo\n".to_string()]),
        _ => panic!("expected one item"),
    }
    match poll_query(SplitType::Lines { quoted: false }, Some("'one' 'two'".into()), None, 50, 10) {
        Poll::Done(Ok(items)) => assert_eq!(items, vec!["one".to_string(), "two".to_string()]),
        _ => panic!("expected two items"),
    }
}
