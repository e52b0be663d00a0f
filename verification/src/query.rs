//! Encoding and decoding of query strings.
//!
//! A parameter list is rendered as `key=value` pairs joined by `&`. The
//! decoder splits on `&` and then on the first `=` of each pair; for
//! wire-safe parameter lists (no separator characters inside keys, no
//! pair separator inside values) decoding inverts encoding exactly.

use crate::settings::{query_params, ImageSettings};
use vstd::prelude::*;

verus! {

/// One `key=value` pair.
pub open spec fn pair_chars(p: (Seq<char>, Seq<char>)) -> Seq<char> {
    p.0 + seq!['='] + p.1
}

/// The pairs of `ps`, joined by `&`. An empty list encodes to the empty
/// string.
pub open spec fn encode_query_chars(ps: Seq<(Seq<char>, Seq<char>)>) -> Seq<char>
    decreases ps.len(),
{
    if ps.len() == 0 {
        Seq::empty()
    } else if ps.len() == 1 {
        pair_chars(ps[0])
    } else {
        pair_chars(ps[0]) + seq!['&'] + encode_query_chars(ps.drop_first())
    }
}

/// Index of the first occurrence of `c` in `s`, or `s.len()` if `c`
/// does not occur.
pub open spec fn find_idx(s: Seq<char>, c: char) -> nat
    decreases s.len(),
{
    if s.len() == 0 {
        0
    } else if s[0] == c {
        0
    } else {
        1 + find_idx(s.drop_first(), c)
    }
}

/// A position that is preceded by no occurrence of `c`, and holds one
/// unless it is the end, is what [`find_idx`] returns.
pub proof fn lemma_find_idx_is(s: Seq<char>, c: char, i: int)
    requires
        0 <= i <= s.len(),
        forall|j: int| 0 <= j < i ==> s[j] != c,
        i < s.len() ==> s[i] == c,
    ensures
        find_idx(s, c) == i,
    decreases s.len(),
{
    if s.len() > 0 && s[0] != c {
        lemma_find_idx_is(s.drop_first(), c, i - 1);
    }
}

/// The pair read back from one `key=value` fragment: everything before
/// the first `=` is the key, everything after it the value. A fragment
/// without `=` is a key with an empty value.
pub open spec fn decode_pair_chars(s: Seq<char>) -> (Seq<char>, Seq<char>) {
    let i = find_idx(s, '=');
    if i == s.len() {
        (s, Seq::empty())
    } else {
        (s.take(i as int), s.skip(i + 1 as int))
    }
}

/// The parameter list read back from a query string: fragments split on
/// `&`, each decoded as one pair. The empty string decodes to the empty
/// list.
pub open spec fn decode_query_chars(s: Seq<char>) -> Seq<(Seq<char>, Seq<char>)>
    decreases s.len(),
{
    if s.len() == 0 {
        Seq::empty()
    } else {
        let i = find_idx(s, '&');
        if i >= s.len() {
            seq![decode_pair_chars(s)]
        } else {
            seq![decode_pair_chars(s.take(i as int))] + decode_query_chars(s.skip(i + 1 as int))
        }
    }
}

/// No occurrence of `c` anywhere in `s`.
pub open spec fn no_char(s: Seq<char>, c: char) -> bool {
    forall|j: int| 0 <= j < s.len() ==> s[j] != c
}

/// A key may hold neither separator; a value may hold anything but the
/// pair separator `&`.
pub open spec fn params_wire_safe(ps: Seq<(Seq<char>, Seq<char>)>) -> bool {
    forall|i: int|
        0 <= i < ps.len() ==> {
            let p = #[trigger] ps[i];
            no_char(p.0, '&') && no_char(p.0, '=') && no_char(p.1, '&')
        }
}

proof fn lemma_decode_pair_of_pair(p: (Seq<char>, Seq<char>))
    requires
        no_char(p.0, '='),
    ensures
        decode_pair_chars(pair_chars(p)) == p,
{
    let e = pair_chars(p);
    assert forall|j: int| 0 <= j < p.0.len() implies e[j] != '=' by {
        assert(e[j] == p.0[j]);
    }
    lemma_find_idx_is(e, '=', p.0.len() as int);
    assert(e.take(p.0.len() as int) =~= p.0);
    assert(e.skip(p.0.len() + 1 as int) =~= p.1);
}

/// Decoding inverts encoding on every wire-safe parameter list.
pub proof fn lemma_decode_encode(ps: Seq<(Seq<char>, Seq<char>)>)
    requires
        params_wire_safe(ps),
    ensures
        decode_query_chars(encode_query_chars(ps)) == ps,
    decreases ps.len(),
{
    if ps.len() == 0 {
    } else {
        let p = ps[0];
        let pc = pair_chars(p);
        let e = encode_query_chars(ps);
        assert(no_char(p.0, '&') && no_char(p.0, '=') && no_char(p.1, '&'));
        assert forall|j: int| 0 <= j < pc.len() implies pc[j] != '&' by {
            if j < p.0.len() {
                assert(pc[j] == p.0[j]);
            } else if j == p.0.len() {
                assert(pc[j] == '=');
            } else {
                assert(pc[j] == p.1[j - p.0.len() - 1]);
            }
        }
        lemma_decode_pair_of_pair(p);
        if ps.len() == 1 {
            assert(e == pc);
            lemma_find_idx_is(e, '&', e.len() as int);
            assert(decode_query_chars(e) =~~= ps);
        } else {
            let rest = encode_query_chars(ps.drop_first());
            assert(e == pc + seq!['&'] + rest);
            assert forall|j: int| 0 <= j < pc.len() implies e[j] != '&' by {
                assert(e[j] == pc[j]);
            }
            assert(e[pc.len() as int] == '&');
            lemma_find_idx_is(e, '&', pc.len() as int);
            assert(e.take(pc.len() as int) =~= pc);
            assert(e.skip(pc.len() + 1 as int) =~= rest);
            assert(params_wire_safe(ps.drop_first())) by {
                assert forall|i: int| 0 <= i < ps.drop_first().len() implies {
                    let q = #[trigger] ps.drop_first()[i];
                    no_char(q.0, '&') && no_char(q.0, '=') && no_char(q.1, '&')
                } by {
                    assert(ps.drop_first()[i] == ps[i + 1]);
                }
            }
            lemma_decode_encode(ps.drop_first());
            assert(decode_query_chars(e) =~~= ps);
        }
    }
}

/// Round-trip law: decoding an encoded wire-safe parameter list gives
/// the list back, so re-encoding the decoded list reproduces the same
/// query string.
pub proof fn lemma_query_round_trip(ps: Seq<(Seq<char>, Seq<char>)>)
    requires
        params_wire_safe(ps),
    ensures
        decode_query_chars(encode_query_chars(ps)) == ps,
        encode_query_chars(decode_query_chars(encode_query_chars(ps))) == encode_query_chars(ps),
{
    lemma_decode_encode(ps);
}

/// The parameters derived from any settings are wire-safe: the keys are
/// `grayscale` and `blur`, the values `true` or decimal digits.
pub proof fn lemma_settings_params_wire_safe(s: ImageSettings)
    ensures
        params_wire_safe(query_params(s)),
{
    reveal_strlit("grayscale");
    reveal_strlit("blur");
    reveal_strlit("true");
    crate::digits::lemma_dec_digits_are_digits(crate::settings::effective_blur(s) as nat);
    assert forall|i: int| 0 <= i < query_params(s).len() implies {
        let p = #[trigger] query_params(s)[i];
        no_char(p.0, '&') && no_char(p.0, '=') && no_char(p.1, '&')
    } by {
        let p = query_params(s)[i];
        assert(no_char("grayscale"@, '&'));
        assert(no_char("grayscale"@, '='));
        assert(no_char("true"@, '&'));
        assert(no_char("blur"@, '&'));
        assert(no_char("blur"@, '='));
        assert(no_char(crate::digits::dec_digits(crate::settings::effective_blur(s) as nat), '&'));
    }
}

/// Round-trip law at the settings level: the query string encoded from
/// any settings decodes back to exactly the parameters that were
/// emitted, so re-encoding reproduces the same query string.
pub proof fn lemma_settings_query_round_trip(s: ImageSettings)
    ensures
        decode_query_chars(encode_query_chars(query_params(s))) == query_params(s),
        encode_query_chars(decode_query_chars(encode_query_chars(query_params(s))))
            == encode_query_chars(query_params(s)),
{
    lemma_settings_params_wire_safe(s);
    lemma_decode_encode(query_params(s));
}

fn encode_query_from(params: &Vec<(String, String)>, i: usize) -> (r: String)
    requires
        i <= params.len(),
    ensures
        r@ == encode_query_chars(params.deep_view().skip(i as int)),
    decreases params.len() - i,
{
    let ghost tail = params.deep_view().skip(i as int);
    if i == params.len() {
        let r = String::new();
        proof {
            assert(tail.len() == 0);
        }
        r
    } else {
        let mut r = params[i].0.clone();
        r.append("=");
        r.append(params[i].1.as_str());
        proof {
            reveal_strlit("=");
            assert(tail[0] == params.deep_view()[i as int]);
            assert(r@ =~= pair_chars(tail[0]));
        }
        if i + 1 < params.len() {
            r.append("&");
            let rest = encode_query_from(params, i + 1);
            r.append(rest.as_str());
            proof {
                reveal_strlit("&");
                assert(tail.drop_first() =~= params.deep_view().skip(i + 1));
                assert(r@ =~= encode_query_chars(tail));
            }
        } else {
            proof {
                assert(tail.len() == 1);
            }
        }
        r
    }
}

/// Encodes a parameter list as a query string, exactly as
/// [`encode_query_chars`] describes.
pub fn encode_query(params: &Vec<(String, String)>) -> (r: String)
    ensures
        r@ == encode_query_chars(params.deep_view()),
{
    let r = encode_query_from(params, 0);
    proof {
        assert(params.deep_view().skip(0) =~= params.deep_view());
    }
    r
}

/// Index of the first occurrence of `c` in `s` at or after `from`,
/// or the length of `s` if there is none before the end.
fn find_char_from(s: &str, c: char, n: usize) -> (r: usize)
    requires
        n == s@.len(),
    ensures
        r == find_idx(s@, c),
        r <= n,
{
    let mut i: usize = 0;
    while i < n
        invariant
            0 <= i <= n,
            n == s@.len(),
            forall|j: int| 0 <= j < i ==> s@[j] != c,
        decreases n - i,
    {
        if s.get_char(i) == c {
            proof {
                lemma_find_idx_is(s@, c, i as int);
            }
            return i;
        }
        i += 1;
    }
    proof {
        lemma_find_idx_is(s@, c, n as int);
    }
    n
}

/// Decodes one `key=value` fragment, exactly as [`decode_pair_chars`]
/// describes.
pub fn decode_pair(s: &str) -> (r: (String, String))
    ensures
        r.deep_view() == decode_pair_chars(s@),
{
    let n = s.unicode_len();
    let i = find_char_from(s, '=', n);
    if i == n {
        (s.to_owned(), String::new())
    } else {
        let key = s.substring_char(0, i).to_owned();
        let value = s.substring_char(i + 1, n).to_owned();
        proof {
            assert(key@ =~= s@.take(i as int));
            assert(value@ =~= s@.skip(i + 1 as int));
        }
        (key, value)
    }
}

/// Decodes a query string back into its parameter list, exactly as
/// [`decode_query_chars`] describes.
pub fn decode_query(s: &str) -> (r: Vec<(String, String)>)
    ensures
        r.deep_view() == decode_query_chars(s@),
    decreases s@.len(),
{
    let n = s.unicode_len();
    let mut out: Vec<(String, String)> = Vec::new();
    if n == 0 {
        proof {
            assert(out.deep_view() =~~= decode_query_chars(s@));
        }
        return out;
    }
    let i = find_char_from(s, '&', n);
    if i == n {
        out.push(decode_pair(s));
        proof {
            assert(out.deep_view() =~~= decode_query_chars(s@));
        }
        out
    } else {
        let head = s.substring_char(0, i);
        proof {
            assert(head@ =~= s@.take(i as int));
        }
        out.push(decode_pair(head));
        let rest = s.substring_char(i + 1, n);
        proof {
            assert(rest@ =~= s@.skip(i + 1 as int));
        }
        let mut tail = decode_query(rest);
        out.append(&mut tail);
        proof {
            assert(out.deep_view() =~~= decode_query_chars(s@));
        }
        out
    }
}

} // verus!
