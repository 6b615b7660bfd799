//! URL resolution: path-parameter substitution and query-string appending.
use vstd::prelude::*;
use vstd::string::*;
use crate::text::{matches_at, occurs_at};

verus! {

/// A sequence of name/value string pairs as character sequences.
pub open spec fn pairs_view(v: Seq<(String, String)>) -> Seq<(Seq<char>, Seq<char>)> {
    v.map_values(|p: (String, String)| (p.0@, p.1@))
}

/// The optional pairs of `o`, with an absent mapping viewed as empty.
pub open spec fn opt_pairs_view(o: Option<Vec<(String, String)>>) -> Seq<(Seq<char>, Seq<char>)> {
    match o {
        Some(v) => pairs_view(v@),
        None => Seq::empty(),
    }
}

/// A copy of the pairs of `v`.
pub fn copy_pairs(v: &Vec<(String, String)>) -> (r: Vec<(String, String)>)
    ensures
        pairs_view(r@) == pairs_view(v@),
{
    let mut r: Vec<(String, String)> = Vec::new();
    let mut i: usize = 0;
    while i < v.len()
        invariant
            i <= v@.len(),
            pairs_view(r@) =~= pairs_view(v@).take(i as int),
        decreases v@.len() - i,
    {
        let ghost old_r = r@;
        let a = v[i].0.clone();
        let b = v[i].1.clone();
        r.push((a, b));
        proof {
            assert(a@ == v@[i as int].0@);
            assert(b@ == v@[i as int].1@);
            assert(r@ == old_r.push((a, b)));
            assert(pairs_view(r@) =~= pairs_view(old_r).push((a@, b@)));
            assert(pairs_view(r@) =~= pairs_view(v@).take(i + 1));
        }
        i = i + 1;
    }
    proof {
        assert(pairs_view(v@).take(i as int) =~= pairs_view(v@));
    }
    r
}

/// The placeholder `{k}` that stands for path parameter `k` in a URL.
pub open spec fn path_token(k: Seq<char>) -> Seq<char> {
    seq!['{'] + k + seq!['}']
}

/// The first parameter, at index `j` or later, whose placeholder occurs in
/// `url` at position `i`; -1 if none does. Of two parameters with the same
/// name, the earlier one is found.
pub open spec fn token_index_from(
    url: Seq<char>,
    params: Seq<(Seq<char>, Seq<char>)>,
    i: int,
    j: int,
) -> int
    decreases params.len() - j,
{
    if j < 0 || j >= params.len() {
        -1
    } else if occurs_at(url, path_token(params[j].0), i) {
        j
    } else {
        token_index_from(url, params, i, j + 1)
    }
}

/// The part of `url` from position `i` on, read once from left to right:
/// where a placeholder starts, its value is emitted and the placeholder is
/// skipped; any other character is copied. Inserted values are not scanned.
pub open spec fn substituted_from(url: Seq<char>, params: Seq<(Seq<char>, Seq<char>)>, i: int) -> Seq<char>
    decreases url.len() - i,
    via substituted_from_decreases
{
    if i < 0 || i >= url.len() {
        Seq::empty()
    } else {
        let j = token_index_from(url, params, i, 0);
        if 0 <= j < params.len() {
            params[j].1 + substituted_from(url, params, i + params[j].0.len() + 2)
        } else {
            seq![url[i]] + substituted_from(url, params, i + 1)
        }
    }
}

#[via_fn]
proof fn substituted_from_decreases(url: Seq<char>, params: Seq<(Seq<char>, Seq<char>)>, i: int) {
    if 0 <= i < url.len() {
        lemma_token_index_from(url, params, i, 0);
    }
}

/// `url` with every placeholder `{k}` of a path parameter `k`, as it stands in
/// `url`, replaced by that parameter's value, in a single pass.
pub open spec fn substitute_path(url: Seq<char>, params: Seq<(Seq<char>, Seq<char>)>) -> Seq<char> {
    substituted_from(url, params, 0)
}

proof fn lemma_token_index_from(url: Seq<char>, params: Seq<(Seq<char>, Seq<char>)>, i: int, j: int)
    requires
        0 <= j <= params.len(),
    ensures
        ({
            let r = token_index_from(url, params, i, j);
            (r == -1 && forall|k: int|
                j <= k < params.len() ==> !occurs_at(url, path_token(#[trigger] params[k].0), i))
                || (j <= r < params.len() && occurs_at(url, path_token(params[r].0), i))
        }),
    decreases params.len() - j,
{
    if j < params.len() && !occurs_at(url, path_token(params[j].0), i) {
        lemma_token_index_from(url, params, i, j + 1);
    }
}

/// `key=value`, with neither side escaped.
pub open spec fn query_pair(p: (Seq<char>, Seq<char>)) -> Seq<char> {
    p.0 + seq!['='] + p.1
}

/// The pairs written `key=value` and joined by `&`.
pub open spec fn query_string(ps: Seq<(Seq<char>, Seq<char>)>) -> Seq<char>
    decreases ps.len(),
{
    if ps.len() == 0 {
        Seq::empty()
    } else if ps.len() == 1 {
        query_pair(ps[0])
    } else {
        query_string(ps.drop_last()) + seq!['&'] + query_pair(ps.last())
    }
}

/// The final URL: path parameters substituted, then, where query parameters
/// are given, `?` and the query string appended.
pub open spec fn resolved_url(
    url: Seq<char>,
    path: Seq<(Seq<char>, Seq<char>)>,
    query: Option<Seq<(Seq<char>, Seq<char>)>>,
) -> Seq<char> {
    let base = substitute_path(url, path);
    match query {
        Some(q) => base + seq!['?'] + query_string(q),
        None => base,
    }
}

/// The placeholders `{k}` of the parameters, in order.
fn placeholders(params: &Vec<(String, String)>) -> (r: Vec<String>)
    ensures
        r@.len() == params@.len(),
        forall|j: int| 0 <= j < r@.len() ==> #[trigger] r@[j]@ == path_token(pairs_view(params@)[j].0),
{
    let mut r: Vec<String> = Vec::new();
    let mut j: usize = 0;
    while j < params.len()
        invariant
            j <= params@.len(),
            r@.len() == j,
            forall|t: int| 0 <= t < j ==> #[trigger] r@[t]@ == path_token(pairs_view(params@)[t].0),
        decreases params@.len() - j,
    {
        let mut token = String::from_str("{");
        token.append(params[j].0.as_str());
        token.append("}");
        proof {
            reveal_strlit("{");
            reveal_strlit("}");
            assert(token@ =~= path_token(pairs_view(params@)[j as int].0));
        }
        r.push(token);
        j = j + 1;
    }
    r
}

/// The index of the first parameter whose placeholder occurs in `url` at `i`.
fn token_at(
    url: &str,
    n: usize,
    params: &Vec<(String, String)>,
    tokens: &Vec<String>,
    i: usize,
) -> (r: Option<usize>)
    requires
        n == url@.len(),
        i <= n,
        tokens@.len() == params@.len(),
        forall|j: int| 0 <= j < tokens@.len() ==> #[trigger] tokens@[j]@ == path_token(pairs_view(params@)[j].0),
    ensures
        match r {
            Some(j) => j < params@.len() && token_index_from(url@, pairs_view(params@), i as int, 0) == j,
            None => token_index_from(url@, pairs_view(params@), i as int, 0) == -1,
        },
{
    let ghost ps = pairs_view(params@);
    let mut j: usize = 0;
    while j < tokens.len()
        invariant
            j <= tokens@.len(),
            n == url@.len(),
            i <= n,
            tokens@.len() == params@.len(),
            ps == pairs_view(params@),
            forall|t: int| 0 <= t < tokens@.len() ==> #[trigger] tokens@[t]@ == path_token(ps[t].0),
            token_index_from(url@, ps, i as int, 0) == token_index_from(url@, ps, i as int, j as int),
        decreases tokens@.len() - j,
    {
        let m = tokens[j].unicode_len();
        if matches_at(url, n, tokens[j].as_str(), m, i) {
            return Some(j);
        }
        j = j + 1;
    }
    None
}

/// Replaces every placeholder `{name}` of a path parameter in `url` by the
/// parameter's value, reading `url` once from left to right; inserted values
/// are not searched again, and unknown placeholders stay as they are.
pub fn substitute_path_params(url: &str, params: &Vec<(String, String)>) -> (r: String)
    ensures
        r@ == substitute_path(url@, pairs_view(params@)),
{
    let ghost ps = pairs_view(params@);
    let tokens = placeholders(params);
    let n = url.unicode_len();
    let mut out = String::new();
    let mut start: usize = 0;
    let mut i: usize = 0;
    while i < n
        invariant
            n == url@.len(),
            start <= i <= n,
            ps == pairs_view(params@),
            tokens@.len() == params@.len(),
            forall|t: int| 0 <= t < tokens@.len() ==> #[trigger] tokens@[t]@ == path_token(ps[t].0),
            out@ + url@.subrange(start as int, i as int) + substituted_from(url@, ps, i as int)
                == substitute_path(url@, ps),
        decreases n - i,
    {
        match token_at(url, n, params, &tokens, i) {
            Some(j) => {
                proof {
                    lemma_token_index_from(url@, ps, i as int, 0);
                    assert(path_token(ps[j as int].0).len() == ps[j as int].0.len() + 2);
                }
                let m = tokens[j].unicode_len();
                let piece = url.substring_char(start, i);
                out.append(piece);
                out.append(params[j].1.as_str());
                proof {
                    assert(out@ + url@.subrange(i + m, i + m) =~= out@);
                }
                i = i + m;
                start = i;
            },
            None => {
                proof {
                    assert(url@.subrange(start as int, i as int) + seq![url@[i as int]]
                        =~= url@.subrange(start as int, i + 1));
                    assert(out@ + url@.subrange(start as int, i as int) + (seq![url@[i as int]]
                        + substituted_from(url@, ps, i + 1)) =~= out@ + url@.subrange(
                        start as int,
                        i + 1,
                    ) + substituted_from(url@, ps, i + 1));
                }
                i = i + 1;
            },
        }
    }
    let tail = url.substring_char(start, n);
    out.append(tail);
    proof {
        assert(out@ =~= substitute_path(url@, ps));
    }
    out
}

/// Writes the pairs as `key=value` joined by `&`, in the order given.
pub fn build_query_string(params: &Vec<(String, String)>) -> (r: String)
    ensures
        r@ == query_string(pairs_view(params@)),
{
    let mut out = String::new();
    let mut i: usize = 0;
    while i < params.len()
        invariant
            i <= params@.len(),
            out@ == query_string(pairs_view(params@).take(i as int)),
        decreases params@.len() - i,
    {
        proof {
            reveal_strlit("&");
            reveal_strlit("=");
        }
        let ghost before = out@;
        if i > 0 {
            out.append("&");
        }
        out.append(params[i].0.as_str());
        out.append("=");
        out.append(params[i].1.as_str());
        proof {
            let ps = pairs_view(params@);
            assert(ps.take(i + 1).drop_last() =~= ps.take(i as int));
            assert(ps.take(i + 1).last() == ps[i as int]);
            if i == 0 {
                assert(out@ =~= query_pair(ps[0]));
            } else {
                assert(out@ =~= before + seq!['&'] + query_pair(ps[i as int]));
            }
        }
        i = i + 1;
    }
    proof {
        assert(pairs_view(params@).take(i as int) =~= pairs_view(params@));
    }
    out
}

/// Resolves the final URL of a request from its base URL and its optional
/// path and query parameters.
pub fn resolve_url(
    url: &str,
    path_params: &Option<Vec<(String, String)>>,
    query_params: &Option<Vec<(String, String)>>,
) -> (r: String)
    ensures
        r@ == resolved_url(
            url@,
            opt_pairs_view(*path_params),
            match query_params {
                Some(q) => Some(pairs_view(q@)),
                None => None,
            },
        ),
{
    let mut out = match path_params {
        Some(ps) => substitute_path_params(url, ps),
        None => {
            let none: Vec<(String, String)> = Vec::new();
            proof {
                assert(pairs_view(none@) =~= Seq::<(Seq<char>, Seq<char>)>::empty());
            }
            substitute_path_params(url, &none)
        },
    };
    proof {
        reveal_strlit("?");
    }
    match query_params {
        Some(qs) => {
            out.append("?");
            let q = build_query_string(qs);
            out.append(q.as_str());
        },
        None => {},
    }
    out
}

} // verus!
