//! How a raw query response is carved into items, and how items are printed.
use vstd::prelude::*;
use crate::selector::views_of;
use crate::text::{chars_of, push_char};

verus! {

/// What a query asks the editor to expand.
#[derive(Clone, Copy, Debug, PartialEq, Eq, Structural)]
pub enum QueryKind {
    /// A value (`%val{..}`).
    Val,
    /// An option (`%opt{..}`).
    Opt,
    /// A register (`%reg{..}`).
    Reg,
    /// The output of a shell command (`%sh{..}`).
    Shell,
}

/// How a raw response becomes items.
#[derive(Clone, Copy, Debug, PartialEq, Eq, Structural)]
pub enum SplitType {
    /// The whole response is one item.
    Whole,
    /// The response is a list of words; items are printed one per line.
    /// With `quoted`, each item keeps the editor's quoting.
    Lines { quoted: bool },
    /// As `Lines`, with items printed terminated by a null byte.
    Nul { quoted: bool },
}

/// The split policy for flag-driven queries.
pub open spec fn split_policy(quote: bool, split: bool, null_split: bool, targets_multiple: bool) -> SplitType {
    if null_split {
        SplitType::Nul { quoted: quote }
    } else if split || targets_multiple {
        SplitType::Lines { quoted: quote }
    } else {
        SplitType::Whole
    }
}

/// The split policy for a query of a given kind: shell output is never split.
pub open spec fn decide_policy(
    kind: QueryKind,
    quote: bool,
    split: bool,
    null_split: bool,
    targets_multiple: bool,
) -> SplitType {
    if kind == QueryKind::Shell {
        SplitType::Whole
    } else {
        split_policy(quote, split, null_split, targets_multiple)
    }
}

impl SplitType {
    /// The split type chosen by the caller's flags and the number of targeted buffers.
    pub fn new(quote: bool, split: bool, null_split: bool, targets_multiple: bool) -> (r: SplitType)
        ensures
            r == split_policy(quote, split, null_split, targets_multiple),
    {
        if null_split {
            SplitType::Nul { quoted: quote }
        } else if split || targets_multiple {
            SplitType::Lines { quoted: quote }
        } else {
            SplitType::Whole
        }
    }

    /// True when the response is a quoted word list rather than one raw text.
    pub open spec fn spec_is_split(self) -> bool {
        !(self is Whole)
    }

    /// True when the response is a quoted word list rather than one raw text.
    #[verifier::when_used_as_spec(spec_is_split)]
    pub fn is_split(self) -> (r: bool)
        ensures
            r == self.spec_is_split(),
    {
        match self {
            SplitType::Whole => false,
            _ => true,
        }
    }

    /// True when items keep the editor's quoting.
    pub open spec fn spec_keeps_quotes(self) -> bool {
        match self {
            SplitType::Whole => false,
            SplitType::Lines { quoted } => quoted,
            SplitType::Nul { quoted } => quoted,
        }
    }

    /// True when items keep the editor's quoting.
    #[verifier::when_used_as_spec(spec_keeps_quotes)]
    pub fn keeps_quotes(self) -> (r: bool)
        ensures
            r == self.spec_keeps_quotes(),
    {
        match self {
            SplitType::Whole => false,
            SplitType::Lines { quoted } => quoted,
            SplitType::Nul { quoted } => quoted,
        }
    }

    /// The character that follows each printed item.
    pub open spec fn spec_separator(self) -> char {
        if self is Nul {
            '\0'
        } else {
            '\n'
        }
    }

    /// The character that follows each printed item.
    #[verifier::when_used_as_spec(spec_separator)]
    pub fn separator(self) -> (r: char)
        ensures
            r == self.spec_separator(),
    {
        match self {
            SplitType::Nul { .. } => '\0',
            _ => '\n',
        }
    }
}

/// Chooses the split type of a query from its kind and the caller's flags.
pub fn decide(kind: QueryKind, quote: bool, split: bool, null_split: bool, targets_multiple: bool) -> (r: SplitType)
    ensures
        r == decide_policy(kind, quote, split, null_split, targets_multiple),
{
    match kind {
        QueryKind::Shell => SplitType::Whole,
        _ => SplitType::new(quote, split, null_split, targets_multiple),
    }
}

/// Shell output is returned as one item whatever flags the caller gives.
pub proof fn shell_is_never_split(quote: bool, split: bool, null_split: bool, targets_multiple: bool)
    ensures
        decide_policy(QueryKind::Shell, quote, split, null_split, targets_multiple) == SplitType::Whole,
{
}

/// The split policy depends on its inputs alone: equal inputs give equal split types.
pub proof fn policy_is_a_function(
    kind1: QueryKind, quote1: bool, split1: bool, null1: bool, multi1: bool,
    kind2: QueryKind, quote2: bool, split2: bool, null2: bool, multi2: bool,
)
    requires
        kind1 == kind2,
        quote1 == quote2,
        split1 == split2,
        null1 == null2,
        multi1 == multi2,
    ensures
        decide_policy(kind1, quote1, split1, null1, multi1)
            == decide_policy(kind2, quote2, split2, null2, multi2),
{
}

/// Where the scan of a word list stands after some characters.
#[derive(Clone, Copy, Debug, PartialEq, Eq, Structural)]
pub enum ScanMode {
    /// Between words.
    Gap,
    /// Inside a word that did not start with a quote.
    Bare,
    /// Inside a quoted word.
    Quoted,
    /// Just after a quote inside a quoted word: either its end or half of a doubled quote.
    Closing,
}

/// Characters that separate words.
pub open spec fn is_space(c: char) -> bool {
    c == ' ' || c == '\n'
}

/// The finished words, the word being read, and the mode of a scan.
pub type ScanState = (Seq<Seq<char>>, Seq<char>, ScanMode);

/// One character of the scan of a word list in the editor's quoting: words are
/// separated by spaces or newlines, a quoted word runs to its closing quote,
/// and a doubled quote inside it stands for one quote.
pub open spec fn scan_step(st: ScanState, c: char) -> ScanState {
    let (items, cur, mode) = st;
    match mode {
        ScanMode::Gap => if is_space(c) {
            st
        } else if c == '\'' {
            (items, Seq::empty(), ScanMode::Quoted)
        } else {
            (items, seq![c], ScanMode::Bare)
        },
        ScanMode::Bare => if is_space(c) {
            (items.push(cur), Seq::empty(), ScanMode::Gap)
        } else {
            (items, cur.push(c), ScanMode::Bare)
        },
        ScanMode::Quoted => if c == '\'' {
            (items, cur, ScanMode::Closing)
        } else {
            (items, cur.push(c), ScanMode::Quoted)
        },
        ScanMode::Closing => if c == '\'' {
            (items, cur.push('\''), ScanMode::Quoted)
        } else if is_space(c) {
            (items.push(cur), Seq::empty(), ScanMode::Gap)
        } else {
            (items.push(cur), seq![c], ScanMode::Bare)
        },
    }
}

/// The state of a scan that starts in `st` and reads all of `s`.
pub open spec fn scan_from(st: ScanState, s: Seq<char>) -> ScanState
    decreases s.len(),
{
    if s.len() == 0 {
        st
    } else {
        scan_step(scan_from(st, s.drop_last()), s.last())
    }
}

/// The state of the scan after all of `s`.
pub open spec fn scan(s: Seq<char>) -> ScanState {
    scan_from((Seq::empty(), Seq::empty(), ScanMode::Gap), s)
}

/// The words of a word list; a word left open at the end still counts.
pub open spec fn words_of(s: Seq<char>) -> Seq<Seq<char>> {
    let (items, cur, mode) = scan(s);
    if mode is Gap {
        items
    } else {
        items.push(cur)
    }
}

/// `w` with each quote doubled.
pub open spec fn escape_quotes(w: Seq<char>) -> Seq<char>
    decreases w.len(),
{
    if w.len() == 0 {
        w
    } else if w.last() == '\'' {
        escape_quotes(w.drop_last()) + seq!['\'', '\'']
    } else {
        escape_quotes(w.drop_last()).push(w.last())
    }
}

/// `w` in the editor's quoting.
pub open spec fn quote_word(w: Seq<char>) -> Seq<char> {
    seq!['\''] + escape_quotes(w) + seq!['\'']
}

/// The items that a raw response gives under a split type.
pub open spec fn decode_response(raw: Seq<char>, split: SplitType) -> Seq<Seq<char>> {
    if !split.spec_is_split() {
        seq![raw]
    } else if split.spec_keeps_quotes() {
        words_of(raw).map_values(|w: Seq<char>| quote_word(w))
    } else {
        words_of(raw)
    }
}

/// Items as printed: each one followed by the separator.
pub open spec fn rendered(items: Seq<Seq<char>>, sep: char) -> Seq<char>
    decreases items.len(),
{
    if items.len() == 0 {
        Seq::empty()
    } else {
        rendered(items.drop_last(), sep) + items.last() + seq![sep]
    }
}

/// Writes a word in the editor's quoting.
pub fn quote(w: &str) -> (r: String)
    ensures
        r@ == quote_word(w@),
{
    let cs = chars_of(w);
    let mut r = String::new();
    push_char(&mut r, '\'');
    let mut i: usize = 0;
    while i < cs.len()
        invariant
            i <= cs@.len(),
            cs@ == w@,
            r@ == seq!['\''] + escape_quotes(cs@.take(i as int)),
        decreases cs.len() - i,
    {
        assert(cs@.take(i as int + 1).drop_last() =~= cs@.take(i as int));
        let c = cs[i];
        if c == '\'' {
            push_char(&mut r, '\'');
            push_char(&mut r, '\'');
        } else {
            push_char(&mut r, c);
        }
        proof {
            assert(r@ =~= seq!['\''] + escape_quotes(cs@.take(i as int + 1)));
        }
        i = i + 1;
    }
    assert(cs@.take(i as int) =~= w@);
    push_char(&mut r, '\'');
    assert(r@ =~= quote_word(w@));
    r
}

/// Splits a word list in the editor's quoting into its words.
pub fn split_words(raw: &str) -> (r: Vec<String>)
    ensures
        views_of(r@) == words_of(raw@),
{
    let cs = chars_of(raw);
    let mut items: Vec<String> = Vec::new();
    let mut cur = String::new();
    let mut mode = ScanMode::Gap;
    let mut i: usize = 0;
    while i < cs.len()
        invariant
            i <= cs@.len(),
            cs@ == raw@,
            (views_of(items@), cur@, mode) == scan(cs@.take(i as int)),
        decreases cs.len() - i,
    {
        assert(cs@.take(i as int + 1).drop_last() =~= cs@.take(i as int));
        let c = cs[i];
        let space = c == ' ' || c == '\n';
        match mode {
            ScanMode::Gap => {
                if space {
                } else if c == '\'' {
                    cur = String::new();
                    mode = ScanMode::Quoted;
                } else {
                    cur = String::new();
                    push_char(&mut cur, c);
                    mode = ScanMode::Bare;
                }
            },
            ScanMode::Bare => {
                if space {
                    items.push(cur);
                    cur = String::new();
                    mode = ScanMode::Gap;
                } else {
                    push_char(&mut cur, c);
                }
            },
            ScanMode::Quoted => {
                if c == '\'' {
                    mode = ScanMode::Closing;
                } else {
                    push_char(&mut cur, c);
                }
            },
            ScanMode::Closing => {
                if c == '\'' {
                    push_char(&mut cur, '\'');
                    mode = ScanMode::Quoted;
                } else if space {
                    items.push(cur);
                    cur = String::new();
                    mode = ScanMode::Gap;
                } else {
                    items.push(cur);
                    cur = String::new();
                    push_char(&mut cur, c);
                    mode = ScanMode::Bare;
                }
            },
        }
        proof {
            assert(cur@ =~= scan(cs@.take(i as int + 1)).1);
            assert(views_of(items@) =~= scan(cs@.take(i as int + 1)).0);
        }
        i = i + 1;
    }
    assert(cs@.take(i as int) =~= raw@);
    match mode {
        ScanMode::Gap => {},
        _ => {
            items.push(cur);
        },
    }
    assert(views_of(items@) =~= words_of(raw@));
    items
}

/// Decodes a raw response into items: the whole text as one item, or its
/// words, kept in the editor's quoting where the split type asks for it.
pub fn decode(raw: &str, split: SplitType) -> (r: Vec<String>)
    ensures
        views_of(r@) == decode_response(raw@, split),
{
    if !split.is_split() {
        let mut whole = String::new();
        whole.append(raw);
        let r = vec![whole];
        assert(views_of(r@) =~= seq![raw@]);
        return r;
    }
    let words = split_words(raw);
    if !split.keeps_quotes() {
        return words;
    }
    let mut r: Vec<String> = Vec::new();
    let mut i: usize = 0;
    while i < words.len()
        invariant
            i <= words@.len(),
            views_of(words@) == words_of(raw@),
            views_of(r@) == views_of(words@).take(i as int).map_values(|w: Seq<char>| quote_word(w)),
        decreases words.len() - i,
    {
        let q = quote(words[i].as_str());
        let ghost before = r@;
        r.push(q);
        proof {
            assert(views_of(words@)[i as int] == words@[i as int]@);
            assert(r@ == before.push(q));
            assert(views_of(r@) =~= views_of(before).push(q@));
        }
        assert(views_of(r@) =~= views_of(words@).take(i as int + 1).map_values(|w: Seq<char>| quote_word(w)));
        i = i + 1;
    }
    assert(views_of(words@).take(i as int) =~= views_of(words@));
    r
}

/// Prints items, each followed by the split type's separator.
pub fn render(items: &Vec<String>, split: SplitType) -> (r: String)
    ensures
        r@ == rendered(views_of(items@), split.spec_separator()),
{
    let sep = split.separator();
    let mut r = String::new();
    let mut i: usize = 0;
    while i < items.len()
        invariant
            i <= items@.len(),
            sep == split.spec_separator(),
            r@ == rendered(views_of(items@).take(i as int), sep),
        decreases items.len() - i,
    {
        assert(views_of(items@).take(i as int + 1).drop_last() =~= views_of(items@).take(i as int));
        r.append(items[i].as_str());
        push_char(&mut r, sep);
        i = i + 1;
    }
    assert(views_of(items@).take(i as int) =~= views_of(items@));
    r
}

/// Under the policy that does not split, any response, newlines included,
/// is exactly one item equal to the whole raw text.
pub proof fn whole_response_is_one_item(raw: Seq<char>)
    ensures
        decode_response(raw, SplitType::Whole) == seq![raw],
        decode_response(raw, SplitType::Whole).len() == 1,
{
}

/// Words in the editor's quoting, separated by single spaces.
pub open spec fn quoted_list(ws: Seq<Seq<char>>) -> Seq<char>
    decreases ws.len(),
{
    if ws.len() == 0 {
        Seq::empty()
    } else if ws.len() == 1 {
        quote_word(ws[0])
    } else {
        quoted_list(ws.drop_last()) + seq![' '] + quote_word(ws.last())
    }
}

proof fn scan_from_append(st: ScanState, a: Seq<char>, b: Seq<char>)
    ensures
        scan_from(st, a + b) == scan_from(scan_from(st, a), b),
    decreases b.len(),
{
    if b.len() == 0 {
        assert(a + b =~= a);
    } else {
        assert((a + b).drop_last() =~= a + b.drop_last());
        scan_from_append(st, a, b.drop_last());
    }
}

proof fn scan_one(st: ScanState, c: char)
    ensures
        scan_from(st, seq![c]) == scan_step(st, c),
{
    assert(seq![c].drop_last() =~= Seq::<char>::empty());
    assert(seq![c].last() == c);
    assert(scan_from(st, Seq::<char>::empty()) == st);
    assert(scan_from(st, seq![c]) == scan_step(scan_from(st, seq![c].drop_last()), c));
}

proof fn scan_escaped(items: Seq<Seq<char>>, cur: Seq<char>, w: Seq<char>)
    ensures
        scan_from((items, cur, ScanMode::Quoted), escape_quotes(w)) == (items, cur + w, ScanMode::Quoted),
    decreases w.len(),
{
    let st = (items, cur, ScanMode::Quoted);
    if w.len() == 0 {
        assert(cur + w =~= cur);
        assert(escape_quotes(w) =~= Seq::<char>::empty());
    } else {
        let rest = w.drop_last();
        let c = w.last();
        scan_escaped(items, cur, rest);
        let mid: ScanState = (items, cur + rest, ScanMode::Quoted);
        assert(scan_from(st, escape_quotes(rest)) == mid);
        if c == '\'' {
            assert(escape_quotes(w) == escape_quotes(rest) + seq!['\'', '\'']);
            scan_from_append(st, escape_quotes(rest), seq!['\'', '\'']);
            assert(seq!['\'', '\''] =~= seq!['\''] + seq!['\'']);
            scan_from_append(mid, seq!['\''], seq!['\'']);
            scan_one(mid, '\'');
            let closing: ScanState = (items, cur + rest, ScanMode::Closing);
            assert(scan_step(mid, '\'') == closing);
            scan_one(closing, '\'');
            assert((cur + rest).push('\'') =~= cur + w);
        } else {
            assert(escape_quotes(w) == escape_quotes(rest) + seq![c]);
            scan_from_append(st, escape_quotes(rest), seq![c]);
            scan_one(mid, c);
            assert((cur + rest).push(c) =~= cur + w);
        }
    }
}

proof fn scan_quoted_word(items: Seq<Seq<char>>, cur: Seq<char>, mode: ScanMode, w: Seq<char>)
    requires
        mode is Gap,
    ensures
        scan_from((items, cur, mode), quote_word(w)) == (items, w, ScanMode::Closing),
{
    let st: ScanState = (items, cur, mode);
    let e = escape_quotes(w);
    scan_from_append(st, seq!['\''] + e, seq!['\'']);
    scan_from_append(st, seq!['\''], e);
    scan_one(st, '\'');
    let open: ScanState = (items, Seq::empty(), ScanMode::Quoted);
    assert(scan_step(st, '\'') == open);
    scan_escaped(items, Seq::empty(), w);
    assert(Seq::<char>::empty() + w =~= w);
    let inside: ScanState = (items, w, ScanMode::Quoted);
    assert(scan_from(st, seq!['\''] + e) == inside);
    scan_one(inside, '\'');
}

proof fn scan_quoted_list(ws: Seq<Seq<char>>)
    requires
        ws.len() > 0,
    ensures
        scan(quoted_list(ws)) == (ws.drop_last(), ws.last(), ScanMode::Closing),
    decreases ws.len(),
{
    let init: ScanState = (Seq::empty(), Seq::empty(), ScanMode::Gap);
    if ws.len() == 1 {
        scan_quoted_word(Seq::empty(), Seq::empty(), ScanMode::Gap, ws[0]);
        assert(ws.drop_last() =~= Seq::<Seq<char>>::empty());
        assert(quoted_list(ws) == quote_word(ws[0]));
    } else {
        let front = ws.drop_last();
        let w = ws.last();
        scan_quoted_list(front);
        let p = quoted_list(front);
        assert(quoted_list(ws) == p + seq![' '] + quote_word(w));
        scan_from_append(init, p + seq![' '], quote_word(w));
        scan_from_append(init, p, seq![' ']);
        let closed: ScanState = (front.drop_last(), front.last(), ScanMode::Closing);
        assert(scan_from(init, p) == closed);
        scan_one(closed, ' ');
        assert(front.drop_last().push(front.last()) =~= front);
        let gap: ScanState = (front, Seq::empty(), ScanMode::Gap);
        assert(scan_step(closed, ' ') == gap);
        scan_quoted_word(front, Seq::empty(), ScanMode::Gap, w);
    }
}

/// Splitting words written in the editor's quoting and separated by single
/// spaces gives back exactly those words, whatever quotes, spaces or
/// newlines they hold.
pub proof fn quoted_list_round_trip(ws: Seq<Seq<char>>)
    ensures
        words_of(quoted_list(ws)) == ws,
{
    if ws.len() > 0 {
        scan_quoted_list(ws);
        assert(ws.drop_last().push(ws.last()) =~= ws);
    }
}

} // verus!
