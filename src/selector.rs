//! Encoding of a requested set of buffers into the editor's buffer-selector
//! syntax: nothing, the wildcard `*`, or a quoted comma-joined list of names.
use vstd::prelude::*;

verus! {

/// True when a name is the wildcard token `*`.
pub open spec fn is_wildcard(s: Seq<char>) -> bool {
    s == seq!['*']
}

/// The names of a list with every wildcard token removed, in order.
pub open spec fn kept_names(names: Seq<Seq<char>>) -> Seq<Seq<char>>
    decreases names.len(),
{
    if names.len() == 0 {
        names
    } else if is_wildcard(names.last()) {
        kept_names(names.drop_last())
    } else {
        kept_names(names.drop_last()).push(names.last())
    }
}

/// The names joined with `,` between consecutive ones.
pub open spec fn join_commas(names: Seq<Seq<char>>) -> Seq<char>
    decreases names.len(),
{
    if names.len() == 0 {
        Seq::empty()
    } else if names.len() == 1 {
        names[0]
    } else {
        join_commas(names.drop_last()) + seq![','] + names.last()
    }
}

/// `s` wrapped in single quotes.
pub open spec fn single_quoted(s: Seq<char>) -> Seq<char> {
    seq!['\''] + s + seq!['\'']
}

/// The selector for a list of requested buffer names, and whether it targets
/// more than one buffer.
pub open spec fn encode_selector(names: Seq<Seq<char>>) -> (Option<Seq<char>>, bool) {
    if names.len() == 0 {
        (None, false)
    } else if is_wildcard(names[0]) {
        (Some(seq!['*']), true)
    } else {
        (Some(single_quoted(join_commas(kept_names(names)))), kept_names(names).len() > 1)
    }
}

/// The character sequences of a list of strings.
pub open spec fn views_of(v: Seq<String>) -> Seq<Seq<char>> {
    v.map_values(|s: String| s@)
}

/// The character sequence of an optional string.
pub open spec fn opt_view(o: Option<String>) -> Option<Seq<char>> {
    match o {
        Some(s) => Some(s@),
        None => None,
    }
}

/// Tells whether `s` is the wildcard token.
pub fn is_star(s: &str) -> (r: bool)
    ensures
        r == is_wildcard(s@),
{
    if s.unicode_len() == 1 && s.get_char(0) == '*' {
        assert(s@ =~= seq!['*']);
        true
    } else {
        false
    }
}

/// Encodes requested buffer names as a buffer selector.
///
/// No names give no selector. A leading `*` selects every buffer and the
/// rest of the list is ignored. Otherwise the names, without any `*`, are
/// joined with `,` and single-quoted; the second component tells whether
/// more than one name was joined.
pub fn to_csv_buffers_or_asterisk(buffers: Vec<String>) -> (r: (Option<String>, bool))
    ensures
        (opt_view(r.0), r.1) == encode_selector(views_of(buffers@)),
{
    let ghost names = views_of(buffers@);
    if buffers.len() == 0 {
        return (None, false);
    }
    if is_star(buffers[0].as_str()) {
        let mut star = String::new();
        star.append("*");
        proof {
            reveal_strlit("*");
            assert(star@ =~= seq!['*']);
        }
        return (Some(star), true);
    }
    let mut res = String::new();
    res.append("'");
    proof {
        reveal_strlit("'");
    }
    let mut count: usize = 0;
    let mut i: usize = 0;
    while i < buffers.len()
        invariant
            i <= buffers@.len(),
            names == views_of(buffers@),
            count == kept_names(names.take(i as int)).len(),
            count <= i,
            res@ == seq!['\''] + join_commas(kept_names(names.take(i as int))),
        decreases buffers.len() - i,
    {
        let ghost before = kept_names(names.take(i as int));
        assert(names.take(i as int + 1).drop_last() =~= names.take(i as int));
        let name = buffers[i].as_str();
        if !is_star(name) {
            if count > 0 {
                res.append(",");
                proof {
                    reveal_strlit(",");
                }
            }
            res.append(name);
            proof {
                let after = before.push(names[i as int]);
                assert(after.drop_last() =~= before);
                if count == 0 {
                    assert(after.len() == 1);
                    assert(res@ =~= seq!['\''] + join_commas(after));
                } else {
                    assert(res@ =~= seq!['\''] + join_commas(after));
                }
            }
            count = count + 1;
        }
        i = i + 1;
    }
    assert(names.take(i as int) =~= names);
    res.append("'");
    assert(res@ =~= single_quoted(join_commas(kept_names(names))));
    (Some(res), count > 1)
}

proof fn kept_names_facts(names: Seq<Seq<char>>)
    ensures
        kept_names(names).len() <= names.len(),
        forall|k: int| 0 <= k < kept_names(names).len() ==> !is_wildcard(#[trigger] kept_names(names)[k]),
        names.len() > 0 && !is_wildcard(names[0]) ==> kept_names(names).len() > 0 && kept_names(names)[0] == names[0],
    decreases names.len(),
{
    if names.len() > 0 {
        kept_names_facts(names.drop_last());
        if names.len() > 1 {
            assert(names.drop_last()[0] == names[0]);
        }
    }
}

/// For a non-empty list that does not start with the wildcard, the selector
/// is the single-quoted, comma-joined list of the names in order without any
/// `*`; that list holds the first name first and no wildcard, so the selector
/// is never an empty quote, and it targets several buffers exactly when more
/// than one name is left.
pub proof fn explicit_selector(names: Seq<Seq<char>>)
    requires
        names.len() > 0,
        !is_wildcard(names[0]),
    ensures
        encode_selector(names).0 == Some(single_quoted(join_commas(kept_names(names)))),
        encode_selector(names).1 == (kept_names(names).len() > 1),
        kept_names(names).len() > 0,
        kept_names(names)[0] == names[0],
        forall|k: int| 0 <= k < kept_names(names).len() ==> !is_wildcard(#[trigger] kept_names(names)[k]),
{
    kept_names_facts(names);
}

} // verus!
