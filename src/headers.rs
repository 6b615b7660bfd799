//! Header validation and the outgoing header set, in which names are kept in
//! lower case and a later value for a name replaces the earlier one.
use vstd::prelude::*;
use vstd::string::*;
use crate::url::pairs_view;

verus! {

/// A character that may stand in a header name (an RFC 7230 token character).
pub open spec fn is_token_char(c: char) -> bool {
    ('a' <= c && c <= 'z') || ('A' <= c && c <= 'Z') || ('0' <= c && c <= '9') || c == '!'
        || c == '#' || c == '$' || c == '%' || c == '&' || c == '\'' || c == '*' || c == '+'
        || c == '-' || c == '.' || c == '^' || c == '_' || c == '`' || c == '|' || c == '~'
}

/// A legal header name: between 1 and 65535 token characters.
pub open spec fn is_header_name(s: Seq<char>) -> bool {
    1 <= s.len() <= 65535 && forall|i: int| 0 <= i < s.len() ==> is_token_char(#[trigger] s[i])
}

/// A character that may stand in a header value: a tab, or anything but a
/// control character (every non-ASCII character is encoded as bytes of 128 and up).
pub open spec fn is_value_char(c: char) -> bool {
    c == '\t' || (c as u32 >= 32 && c as u32 != 127)
}

/// A legal header value.
pub open spec fn is_header_value(s: Seq<char>) -> bool {
    forall|i: int| 0 <= i < s.len() ==> is_value_char(#[trigger] s[i])
}

/// `c` with ASCII upper-case letters mapped to lower case.
pub open spec fn lower_char(c: char) -> char {
    if 'A' <= c && c <= 'Z' {
        ((c as u32) + 32) as char
    } else {
        c
    }
}

/// `s` with ASCII upper-case letters mapped to lower case.
pub open spec fn lower_ascii(s: Seq<char>) -> Seq<char> {
    s.map_values(|c: char| lower_char(c))
}

/// Relies on `HeaderName::from_bytes` (reqwest's `header` module, from the
/// `http` crate): it accepts exactly the legal header names and keeps them in
/// lower case.
#[verifier::external_body]
fn parse_header_name(key: &str) -> (r: Option<String>)
    ensures
        r.is_some() == is_header_name(key@),
        r matches Some(n) ==> n@ == lower_ascii(key@),
{
    reqwest::header::HeaderName::from_bytes(key.as_bytes()).ok().map(|n| n.as_str().to_string())
}

/// Relies on `HeaderValue::from_str` (reqwest's `header` module, from the
/// `http` crate): it accepts a string exactly when every byte is a tab or
/// at least 32 and not 127.
#[verifier::external_body]
fn header_value_accepted(value: &str) -> (r: bool)
    ensures
        r == is_header_value(value@),
{
    reqwest::header::HeaderValue::from_str(value).is_ok()
}

/// Position of the first entry named `name` at or after `i`, or -1.
pub open spec fn position_from(set: Seq<(Seq<char>, Seq<char>)>, name: Seq<char>, i: int) -> int
    decreases set.len() - i,
{
    if i < 0 || i >= set.len() {
        -1
    } else if set[i].0 == name {
        i
    } else {
        position_from(set, name, i + 1)
    }
}

/// `set` with `name` set to `value`: the entry of that name is updated in
/// place, or a new entry is added at the end.
pub open spec fn set_header(set: Seq<(Seq<char>, Seq<char>)>, name: Seq<char>, value: Seq<char>) -> Seq<(Seq<char>, Seq<char>)> {
    let p = position_from(set, name, 0);
    if p >= 0 {
        set.update(p, (name, value))
    } else {
        set.push((name, value))
    }
}

/// No two entries of `set` have the same name.
pub open spec fn names_unique(set: Seq<(Seq<char>, Seq<char>)>) -> bool {
    forall|i: int, j: int| 0 <= i < j < set.len() ==> set[i].0 != set[j].0
}

proof fn lemma_position_from(set: Seq<(Seq<char>, Seq<char>)>, name: Seq<char>, i: int)
    requires
        0 <= i <= set.len(),
    ensures
        ({
            let p = position_from(set, name, i);
            (p == -1 && forall|k: int| i <= k < set.len() ==> set[k].0 != name)
                || (i <= p < set.len() && set[p].0 == name)
        }),
    decreases set.len() - i,
{
    if i < set.len() && set[i].0 != name {
        lemma_position_from(set, name, i + 1);
    }
}

/// Sets `name` to `value` in the header set `set`.
pub fn insert_header(set: &mut Vec<(String, String)>, name: String, value: String)
    requires
        names_unique(pairs_view(old(set)@)),
    ensures
        pairs_view(final(set)@) == set_header(pairs_view(old(set)@), name@, value@),
        names_unique(pairs_view(final(set)@)),
{
    let ghost s0 = pairs_view(set@);
    let mut i: usize = 0;
    while i < set.len()
        invariant
            i <= set@.len(),
            set@ == old(set)@,
            s0 == pairs_view(set@),
            names_unique(s0),
            position_from(s0, name@, 0) == position_from(s0, name@, i as int),
        decreases set@.len() - i,
    {
        if set[i].0 == name {
            proof {
                lemma_position_from(s0, name@, 0);
            }
            set.set(i, (name, value));
            proof {
                assert(pairs_view(set@) =~= s0.update(i as int, (name@, value@)));
                let s2 = pairs_view(set@);
                assert forall|a: int, b: int| 0 <= a < b < s2.len() implies s2[a].0 != s2[b].0 by {
                    assert(s2[a].0 == s0[a].0);
                    assert(s2[b].0 == s0[b].0);
                }
            }
            return;
        }
        i = i + 1;
    }
    proof {
        lemma_position_from(s0, name@, 0);
    }
    set.push((name, value));
    proof {
        assert(pairs_view(set@) =~= s0.push((name@, value@)));
    }
}

/// The `-H` flag that reproduces one header on the command line.
pub open spec fn header_flag(name: Seq<char>, value: Seq<char>) -> Seq<char> {
    " -H '"@ + name + ": "@ + value + "'"@
}

/// Whether a header entry passes validation.
pub open spec fn header_ok(p: (Seq<char>, Seq<char>)) -> bool {
    is_header_name(p.0) && is_header_value(p.1)
}

/// The header set and the command-line flags built from `hs` in order, or
/// the name of the first entry that fails validation.
pub open spec fn build_headers(hs: Seq<(Seq<char>, Seq<char>)>) -> Result<(Seq<(Seq<char>, Seq<char>)>, Seq<char>), Seq<char>>
    decreases hs.len(),
{
    if hs.len() == 0 {
        Ok((Seq::empty(), Seq::empty()))
    } else {
        match build_headers(hs.drop_last()) {
            Err(k) => Err(k),
            Ok((set, flags)) => {
                let p = hs.last();
                if header_ok(p) {
                    Ok((set_header(set, lower_ascii(p.0), p.1), flags + header_flag(lower_ascii(p.0), p.1)))
                } else {
                    Err(p.0)
                }
            },
        }
    }
}

pub proof fn lemma_build_headers_unique(hs: Seq<(Seq<char>, Seq<char>)>)
    ensures
        build_headers(hs) matches Ok((set, _)) ==> names_unique(set),
    decreases hs.len(),
{
    if hs.len() > 0 {
        lemma_build_headers_unique(hs.drop_last());
        if let Ok((set, _)) = build_headers(hs.drop_last()) {
            let p = hs.last();
            lemma_position_from(set, lower_ascii(p.0), 0);
            let s2 = set_header(set, lower_ascii(p.0), p.1);
            assert forall|i: int, j: int| 0 <= i < j < s2.len() implies s2[i].0 != s2[j].0 by {
                if j == set.len() {
                    assert(set[i].0 != lower_ascii(p.0));
                }
            }
        }
    }
}

/// Building headers fails exactly when some entry is illegal, and then names
/// an entry that is illegal.
pub proof fn lemma_build_headers_fails(hs: Seq<(Seq<char>, Seq<char>)>)
    ensures
        build_headers(hs) is Err <==> exists|i: int| 0 <= i < hs.len() && !header_ok(#[trigger] hs[i]),
        build_headers(hs) matches Err(k) ==> exists|i: int|
            0 <= i < hs.len() && !header_ok(#[trigger] hs[i]) && hs[i].0 == k,
    decreases hs.len(),
{
    if hs.len() > 0 {
        let init = hs.drop_last();
        lemma_build_headers_fails(init);
        assert forall|i: int| 0 <= i < init.len() implies init[i] == hs[i] by {}
        if build_headers(init) is Err {
            let i = choose|i: int| 0 <= i < init.len() && !header_ok(#[trigger] init[i]) && init[i].0
                == build_headers(init)->Err_0;
            assert(!header_ok(hs[i]));
        } else if !header_ok(hs.last()) {
            assert(!header_ok(hs[hs.len() - 1]));
        } else {
            assert forall|i: int| 0 <= i < hs.len() implies header_ok(#[trigger] hs[i]) by {
                if i < init.len() {
                    assert(init[i] == hs[i]);
                }
            }
        }
    }
}

proof fn lemma_build_headers_err(hs: Seq<(Seq<char>, Seq<char>)>, i: int)
    requires
        0 <= i <= hs.len(),
        build_headers(hs.take(i)) is Err,
    ensures
        build_headers(hs) == build_headers(hs.take(i)),
    decreases hs.len() - i,
{
    if i < hs.len() {
        assert(hs.take(i + 1).drop_last() =~= hs.take(i));
        lemma_build_headers_err(hs, i + 1);
    } else {
        assert(hs.take(i) =~= hs);
    }
}

/// Validates each header in order and builds the header set together with the
/// command-line flags for the accepted headers. Fails with the name of the
/// first header whose name or value is illegal.
pub fn validate_headers(hs: &Vec<(String, String)>) -> (r: Result<(Vec<(String, String)>, String), String>)
    ensures
        match (r, build_headers(pairs_view(hs@))) {
            (Ok((set, flags)), Ok((s, f))) => pairs_view(set@) == s && flags@ == f,
            (Err(k), Err(key)) => k@ == key,
            _ => false,
        },
{
    let mut set: Vec<(String, String)> = Vec::new();
    let mut flags = String::new();
    let mut i: usize = 0;
    proof {
        assert(pairs_view(hs@).take(0) =~= Seq::<(Seq<char>, Seq<char>)>::empty());
        assert(pairs_view(set@) =~= Seq::<(Seq<char>, Seq<char>)>::empty());
    }
    while i < hs.len()
        invariant
            i <= hs@.len(),
            build_headers(pairs_view(hs@).take(i as int)) == Ok::<_, Seq<char>>((pairs_view(set@), flags@)),
        decreases hs@.len() - i,
    {
        let ghost prefix = pairs_view(hs@).take(i + 1);
        proof {
            assert(prefix.drop_last() =~= pairs_view(hs@).take(i as int));
            assert(prefix.last() == (hs@[i as int].0@, hs@[i as int].1@));
            lemma_build_headers_unique(pairs_view(hs@).take(i as int));
        }
        let key = &hs[i].0;
        let value = &hs[i].1;
        let name = match parse_header_name(key.as_str()) {
            Some(n) => n,
            None => {
                proof {
                    lemma_build_headers_err(pairs_view(hs@), i + 1);
                }
                return Err(key.clone());
            },
        };
        if !header_value_accepted(value.as_str()) {
            proof {
                lemma_build_headers_err(pairs_view(hs@), i + 1);
            }
            return Err(key.clone());
        }
        flags.append(" -H '");
        flags.append(name.as_str());
        flags.append(": ");
        flags.append(value.as_str());
        flags.append("'");
        insert_header(&mut set, name, value.clone());
        proof {
            assert(flags@ =~= build_headers(prefix)->Ok_0.1);
        }
        i = i + 1;
    }
    proof {
        assert(pairs_view(hs@).take(i as int) =~= pairs_view(hs@));
    }
    Ok((set, flags))
}

} // verus!
