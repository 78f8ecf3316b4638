//! The protocol client: where a script runs, and the scripts that carry
//! commands and queries to a session.
use vstd::prelude::*;
use crate::error::Error;
use crate::selector::{opt_view, single_quoted, views_of};
use crate::split::{decode, decode_response, QueryKind, SplitType};
use crate::text::push_char;

verus! {

/// `o` without an empty string.
pub open spec fn non_empty(o: Option<Seq<char>>) -> Option<Seq<char>> {
    match o {
        Some(s) => if s.len() > 0 {
            Some(s)
        } else {
            None
        },
        None => None,
    }
}

/// The session a request runs in and, optionally, the client that scopes it.
#[derive(Debug)]
pub struct Context {
    session: String,
    client: Option<String>,
}

impl View for Context {
    type V = (Seq<char>, Option<Seq<char>>);

    closed spec fn view(&self) -> Self::V {
        (self.session@, opt_view(self.client))
    }
}

impl Context {
    /// The session is named and the client, if any, is named.
    pub open spec fn well_formed(&self) -> bool {
        &&& self@.0.len() > 0
        &&& non_empty(self@.1) == self@.1
    }

    /// Makes a context for a session and an optional client; an empty client
    /// counts as none. Fails with `NoSession` when the session is empty.
    pub fn new(session: String, client: Option<String>) -> (r: Result<Context, Error>)
        ensures
            session@.len() == 0 <==> r is Err,
            r is Err ==> r == Err::<Context, Error>(Error::NoSession),
            r matches Ok(c) ==> c@ == (session@, non_empty(opt_view(client))) && c.well_formed(),
    {
        if session.as_str().unicode_len() == 0 {
            return Err(Error::NoSession);
        }
        let client = match client {
            Some(c) => if c.as_str().unicode_len() > 0 {
                Some(c)
            } else {
                None
            },
            None => None,
        };
        Ok(Context { session, client })
    }

    /// The session's name.
    pub fn session(&self) -> (r: &str)
        ensures
            r@ == self@.0,
    {
        self.session.as_str()
    }

    /// The client's name, if any.
    pub fn client(&self) -> (r: Option<&str>)
        ensures
            r matches Some(c) ==> self@.1 == Some(c@),
            r is None ==> self@.1 is None,
    {
        match &self.client {
            Some(c) => Some(c.as_str()),
            None => None,
        }
    }
}

/// The session and client that a request targets: an explicit session wins
/// over the environment, and then only an explicit client counts; without
/// an explicit session both come from the environment, the explicit client
/// first. Empty clients count as none.
pub open spec fn target_of(
    flag_session: Option<Seq<char>>,
    flag_client: Option<Seq<char>>,
    env_session: Option<Seq<char>>,
    env_client: Option<Seq<char>>,
) -> (Option<Seq<char>>, Option<Seq<char>>) {
    if flag_session is Some {
        (flag_session, non_empty(flag_client))
    } else if non_empty(flag_client) is Some {
        (env_session, non_empty(flag_client))
    } else {
        (env_session, non_empty(env_client))
    }
}

fn non_empty_string(o: Option<String>) -> (r: Option<String>)
    ensures
        opt_view(r) == non_empty(opt_view(o)),
{
    match o {
        Some(s) => if s.as_str().unicode_len() > 0 {
            Some(s)
        } else {
            None
        },
        None => None,
    }
}

/// Chooses the session and client of a request from explicit values and the
/// environment's.
pub fn resolve_target(
    flag_session: Option<String>,
    flag_client: Option<String>,
    env_session: Option<String>,
    env_client: Option<String>,
) -> (r: (Option<String>, Option<String>))
    ensures
        (opt_view(r.0), opt_view(r.1)) == target_of(
            opt_view(flag_session),
            opt_view(flag_client),
            opt_view(env_session),
            opt_view(env_client),
        ),
{
    let client = non_empty_string(flag_client);
    match flag_session {
        Some(s) => (Some(s), client),
        None => match client {
            Some(c) => (env_session, Some(c)),
            None => (env_session, non_empty_string(env_client)),
        },
    }
}

/// Words joined with single spaces.
pub open spec fn join_spaces(words: Seq<Seq<char>>) -> Seq<char>
    decreases words.len(),
{
    if words.len() == 0 {
        Seq::empty()
    } else if words.len() == 1 {
        words[0]
    } else {
        join_spaces(words.drop_last()) + seq![' '] + words.last()
    }
}

/// Joins the words of a command line with single spaces.
pub fn join_words(words: &Vec<String>) -> (r: String)
    ensures
        r@ == join_spaces(views_of(words@)),
{
    let mut r = String::new();
    let mut i: usize = 0;
    while i < words.len()
        invariant
            i <= words@.len(),
            r@ == join_spaces(views_of(words@).take(i as int)),
        decreases words.len() - i,
    {
        assert(views_of(words@).take(i as int + 1).drop_last() =~= views_of(words@).take(i as int));
        if i > 0 {
            push_char(&mut r, ' ');
        }
        r.append(words[i].as_str());
        proof {
            assert(r@ =~= join_spaces(views_of(words@).take(i as int + 1)));
        }
        i = i + 1;
    }
    assert(views_of(words@).take(i as int) =~= views_of(words@));
    r
}

/// `body` run in each selected buffer, when there is a selector.
pub open spec fn in_buffers(selector: Option<Seq<char>>, body: Seq<char>) -> Seq<char> {
    match selector {
        Some(sel) => "evaluate-commands -buffer "@ + sel + " %{ "@ + body + " }"@,
        None => body,
    }
}

/// `body` run in the context of a client, when there is one.
pub open spec fn in_client(client: Option<Seq<char>>, body: Seq<char>) -> Seq<char> {
    match client {
        Some(c) => "evaluate-commands -client "@ + c + " %{ "@ + body + " }"@,
        None => body,
    }
}

/// `body` scoped to a context's client and to the selected buffers.
pub open spec fn scoped(ctx: (Seq<char>, Option<Seq<char>>), selector: Option<Seq<char>>, body: Seq<char>) -> Seq<char> {
    in_client(ctx.1, in_buffers(selector, body))
}

/// The decimal digit for `d < 10`.
pub open spec fn digit(d: nat) -> char {
    if d == 0 { '0' } else if d == 1 { '1' } else if d == 2 { '2' } else if d == 3 { '3' }
    else if d == 4 { '4' } else if d == 5 { '5' } else if d == 6 { '6' } else if d == 7 { '7' }
    else if d == 8 { '8' } else { '9' }
}

/// The decimal digits of `n`, without leading zeros.
pub open spec fn nat_decimal(n: nat) -> Seq<char>
    decreases n,
{
    if n < 10 {
        seq![digit(n)]
    } else {
        nat_decimal(n / 10).push(digit(n % 10))
    }
}

/// The decimal form of `n`, with a leading `-` when negative.
pub open spec fn int_decimal(n: int) -> Seq<char> {
    if n < 0 {
        seq!['-'] + nat_decimal((-n) as nat)
    } else {
        nat_decimal(n as nat)
    }
}

fn digit_char(d: u64) -> (c: char)
    requires
        d < 10,
    ensures
        c == digit(d as nat),
{
    if d == 0 { '0' } else if d == 1 { '1' } else if d == 2 { '2' } else if d == 3 { '3' }
    else if d == 4 { '4' } else if d == 5 { '5' } else if d == 6 { '6' } else if d == 7 { '7' }
    else if d == 8 { '8' } else { '9' }
}

fn push_decimal(s: &mut String, n: u64)
    ensures
        final(s)@ == old(s)@ + nat_decimal(n as nat),
    decreases n,
{
    if n >= 10 {
        push_decimal(s, n / 10);
    }
    push_char(s, digit_char(n % 10));
    assert(s@ =~= old(s)@ + nat_decimal(n as nat));
}

/// Writes an integer in decimal.
pub fn decimal(n: i32) -> (r: String)
    ensures
        r@ == int_decimal(n as int),
{
    let mut r = String::new();
    if n < 0 {
        push_char(&mut r, '-');
        let m: i64 = -(n as i64);
        push_decimal(&mut r, m as u64);
    } else {
        push_decimal(&mut r, n as u64);
    }
    assert(r@ =~= int_decimal(n as int));
    r
}

/// The editor command that ends a session, with an optional exit status.
pub open spec fn kill_command(exit_status: Option<i32>) -> Seq<char> {
    match exit_status {
        Some(n) => "kill "@ + int_decimal(n as int),
        None => "kill"@,
    }
}

/// The key of an expansion of a query kind.
pub open spec fn expansion_key(kind: QueryKind) -> Seq<char> {
    match kind {
        QueryKind::Val => "val"@,
        QueryKind::Opt => "opt"@,
        QueryKind::Reg => "reg"@,
        QueryKind::Shell => "sh"@,
    }
}

/// How the editor quotes the answer for a split type.
pub open spec fn quoting_of(split: SplitType) -> Seq<char> {
    if split.spec_is_split() {
        "kakoune"@
    } else {
        "raw"@
    }
}

/// The script of a query: it gathers the expansion of `name` in each
/// targeted buffer into a hidden list option, writes that list to `out`, and
/// writes the editor's error message to `err` when any step fails.
pub open spec fn query_text(
    ctx: (Seq<char>, Option<Seq<char>>),
    kind: QueryKind,
    name: Seq<char>,
    selector: Option<Seq<char>>,
    split: SplitType,
    out: Seq<char>,
    err: Seq<char>,
) -> Seq<char> {
    "try %{ declare-option -hidden str-list kamp_result }\n"@
        + "set-option global kamp_result\n"@
        + "try %{\n"@
        + scoped(ctx, selector, "set-option -add global kamp_result %"@ + expansion_key(kind) + "{"@ + name + "}"@)
        + "\necho -quoting "@ + quoting_of(split) + " -to-file "@ + single_quoted(out) + " %opt{kamp_result}\n"@
        + "} catch %{\necho -quoting raw -to-file "@ + single_quoted(err) + " %val{error}\n}\n"@
}

/// What a query has learnt so far while it waits for its answer.
pub enum Poll {
    /// Nothing yet, and there is time left.
    Pending,
    /// The query is over, with its items or its failure.
    Done(Result<Vec<String>, Error>),
}

fn push_scoped(r: &mut String, client: &Option<String>, selector: &Option<String>, body: &str)
    ensures
        final(r)@ == old(r)@ + in_client(opt_view(*client), in_buffers(opt_view(*selector), body@)),
{
    let ghost start = r@;
    if let Some(c) = client {
        r.append("evaluate-commands -client ");
        r.append(c.as_str());
        r.append(" %{ ");
    }
    if let Some(sel) = selector {
        r.append("evaluate-commands -buffer ");
        r.append(sel.as_str());
        r.append(" %{ ");
    }
    r.append(body);
    if selector.is_some() {
        r.append(" }");
    }
    if client.is_some() {
        r.append(" }");
    }
    assert(r@ =~= start + in_client(opt_view(*client), in_buffers(opt_view(*selector), body@)));
}

impl Context {
    /// The script that runs `command`, scoped to this context's client and to
    /// the selected buffers. Fails with `CommandRequired` when `command` is
    /// empty.
    pub fn send_script(&self, command: &str, selector: &Option<String>) -> (r: Result<String, Error>)
        ensures
            command@.len() == 0 <==> r is Err,
            r is Err ==> r == Err::<String, Error>(Error::CommandRequired),
            r matches Ok(s) ==> s@ == scoped(self@, opt_view(*selector), command@),
    {
        if command.unicode_len() == 0 {
            return Err(Error::CommandRequired);
        }
        let mut r = String::new();
        push_scoped(&mut r, &self.client, selector, command);
        assert(r@ =~= scoped(self@, opt_view(*selector), command@));
        Ok(r)
    }

    /// The script that ends the session, with an optional exit status.
    pub fn kill_script(&self, exit_status: Option<i32>) -> (r: String)
        ensures
            r@ == scoped(self@, None, kill_command(exit_status)),
    {
        let mut cmd = String::new();
        cmd.append("kill");
        if let Some(n) = exit_status {
            cmd.append(" ");
            let d = decimal(n);
            cmd.append(d.as_str());
            proof {
                reveal_strlit("kill");
                reveal_strlit(" ");
                reveal_strlit("kill ");
                assert(cmd@ =~= kill_command(exit_status));
            }
        }
        let mut r = String::new();
        push_scoped(&mut r, &self.client, &None, cmd.as_str());
        r
    }

    /// The script of a query for `name` of the given kind; its answer goes to
    /// the file `out`, and an error of the editor to the file `err`.
    pub fn query_script(
        &self,
        kind: QueryKind,
        name: &str,
        selector: &Option<String>,
        split: SplitType,
        out: &str,
        err: &str,
    ) -> (r: String)
        ensures
            r@ == query_text(self@, kind, name@, opt_view(*selector), split, out@, err@),
    {
        let mut body = String::new();
        body.append("set-option -add global kamp_result %");
        match kind {
            QueryKind::Val => body.append("val"),
            QueryKind::Opt => body.append("opt"),
            QueryKind::Reg => body.append("reg"),
            QueryKind::Shell => body.append("sh"),
        }
        body.append("{");
        body.append(name);
        body.append("}");
        let mut r = String::new();
        r.append("try %{ declare-option -hidden str-list kamp_result }\n");
        r.append("set-option global kamp_result\n");
        r.append("try %{\n");
        push_scoped(&mut r, &self.client, selector, body.as_str());
        r.append("\necho -quoting ");
        if split.is_split() {
            r.append("kakoune");
        } else {
            r.append("raw");
        }
        r.append(" -to-file ");
        push_char(&mut r, '\'');
        r.append(out);
        push_char(&mut r, '\'');
        r.append(" %opt{kamp_result}\n");
        r.append("} catch %{\necho -quoting raw -to-file ");
        push_char(&mut r, '\'');
        r.append(err);
        push_char(&mut r, '\'');
        r.append(" %val{error}\n}\n");
        assert(r@ =~= query_text(self@, kind, name@, opt_view(*selector), split, out@, err@));
        r
    }
}

/// Decides the outcome of a query from what its recovery channel holds:
/// an error of the editor ends it with `EmptyResult`, an answer ends it with
/// its items, and with neither it times out once `elapsed_ms` reaches
/// `bound_ms`, else it keeps waiting.
pub fn poll_query(
    split: SplitType,
    out: Option<String>,
    err: Option<String>,
    elapsed_ms: u64,
    bound_ms: u64,
) -> (r: Poll)
    ensures
        err matches Some(e) ==> (r matches Poll::Done(Err(Error::EmptyResult(m))) && m@ == e@),
        err is None && out is Some ==> (r matches Poll::Done(Ok(items))
            && views_of(items@) == decode_response(out->0@, split)),
        err is None && out is None && elapsed_ms >= bound_ms ==> (r matches Poll::Done(Err(Error::QueryTimeout))),
        err is None && out is None && elapsed_ms < bound_ms ==> r is Pending,
{
    if let Some(e) = err {
        return Poll::Done(Err(Error::EmptyResult(e)));
    }
    if let Some(v) = out {
        return Poll::Done(Ok(decode(v.as_str(), split)));
    }
    if elapsed_ms >= bound_ms {
        Poll::Done(Err(Error::QueryTimeout))
    } else {
        Poll::Pending
    }
}

} // verus!
