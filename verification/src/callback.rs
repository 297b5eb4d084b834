//! Parsing of the authorization redirect: the query string of the one
//! request the local listener accepts, and the decision it yields — an
//! authorization code, or a rejection.
//!
//! The query grammar is the usual `application/x-www-form-urlencoded`
//! one: pairs separated by `&`, key and value separated by the first
//! `=`, `+` decoding to a space and `%HH` to the character with that
//! code; a malformed escape stays literal, and empty pairs are skipped.

use vstd::prelude::*;
use crate::error::AuthError;
use crate::text::push_char;

verus! {

/// Value of a hexadecimal digit character, or a negative number for any
/// other character.
pub open spec fn hex_digit_val(c: char) -> int {
    if '0' <= c && c <= '9' {
        c as u32 - 48
    } else if 'a' <= c && c <= 'f' {
        c as u32 - 87
    } else if 'A' <= c && c <= 'F' {
        c as u32 - 55
    } else {
        -1
    }
}

/// Whether position `i` of `s` starts a valid `%HH` escape.
pub open spec fn is_escape_at(s: Seq<char>, i: int) -> bool {
    s[i] == '%' && i + 3 <= s.len() && hex_digit_val(s[(i + 1) as int]) >= 0 && hex_digit_val(
        s[(i + 2) as int],
    ) >= 0
}

/// Percent-decoding of one key or value, from position `i` on.
pub open spec fn spec_decode_from(s: Seq<char>, i: int) -> Seq<char>
    decreases s.len() - i,
{
    if i < 0 || i >= s.len() {
        Seq::empty()
    } else if s[i] == '+' {
        seq![' '] + spec_decode_from(s, i + 1)
    } else if is_escape_at(s, i) {
        seq![(((hex_digit_val(s[(i + 1) as int]) * 16 + hex_digit_val(s[(i + 2) as int])) as u8) as char)]
            + spec_decode_from(s, i + 3)
    } else {
        seq![s[i]] + spec_decode_from(s, i + 1)
    }
}

/// Percent-decoding of a whole key or value.
pub open spec fn spec_decode(s: Seq<char>) -> Seq<char> {
    spec_decode_from(s, 0)
}

/// First position at or after `i` holding `sep`, or the length.
pub open spec fn spec_find_char(s: Seq<char>, sep: char, i: int) -> int
    decreases s.len() - i,
{
    if i < 0 || i >= s.len() {
        s.len() as int
    } else if s[i] == sep {
        i
    } else {
        spec_find_char(s, sep, i + 1)
    }
}

/// The decoded key/value pairs of the query string `q`, from position
/// `i` on: segments split at `&`, each divided at its first `=` (a
/// segment without `=` has an empty value), empty segments skipped.
pub open spec fn spec_pairs_from(q: Seq<char>, i: int) -> Seq<(Seq<char>, Seq<char>)>
    decreases q.len() + 1 - i,
{
    if i < 0 || i >= q.len() {
        Seq::empty()
    } else {
        let e0 = spec_find_char(q, '&', i);
        let e = if e0 < i {
            i
        } else if e0 > q.len() {
            q.len() as int
        } else {
            e0
        };
        let rest = spec_pairs_from(q, e + 1);
        if e == i {
            rest
        } else {
            let m = spec_find_char(q.subrange(0, e), '=', i);
            let key = spec_decode(q.subrange(i, m));
            let val = if m < e {
                spec_decode(q.subrange(m + 1, e))
            } else {
                Seq::<char>::empty()
            };
            seq![(key, val)] + rest
        }
    }
}

/// The decoded key/value pairs of a query string.
pub open spec fn spec_query_pairs(q: Seq<char>) -> Seq<(Seq<char>, Seq<char>)> {
    spec_pairs_from(q, 0)
}

/// The value of the first pair whose key is `key`.
pub open spec fn spec_find_pair(pairs: Seq<(Seq<char>, Seq<char>)>, key: Seq<char>) -> Option<
    Seq<char>,
>
    decreases pairs.len(),
{
    if pairs.len() == 0 {
        None
    } else if pairs[0].0 == key {
        Some(pairs[0].1)
    } else {
        spec_find_pair(pairs.skip(1), key)
    }
}

/// The query string of a request target: what follows the first `?`, or
/// nothing when there is none.
pub open spec fn spec_query_of_target(t: Seq<char>) -> Seq<char> {
    let p = spec_find_char(t, '?', 0);
    if p < t.len() {
        t.subrange(p + 1, t.len() as int)
    } else {
        Seq::empty()
    }
}

fn hex_val(c: char) -> (r: Option<u8>)
    ensures
        match r {
            Some(v) => hex_digit_val(c) == v && v < 16,
            None => hex_digit_val(c) < 0,
        },
{
    if c >= '0' && c <= '9' {
        Some((c as u32 - 48) as u8)
    } else if c >= 'a' && c <= 'f' {
        Some((c as u32 - 87) as u8)
    } else if c >= 'A' && c <= 'F' {
        Some((c as u32 - 55) as u8)
    } else {
        None
    }
}

/// Percent-decodes `s` between positions `i` and `n`, appending to `out`.
fn decode_into(s: &str, n: usize, i: usize, out: &mut String)
    requires
        n == s@.len(),
        i <= n,
    ensures
        final(out)@ == old(out)@ + spec_decode_from(s@, i as int),
    decreases n - i,
{
    if i >= n {
        return ;
    }
    let c = s.get_char(i);
    if c == '+' {
        push_char(out, ' ');
        decode_into(s, n, i + 1, out);
        assert(out@ =~= old(out)@ + spec_decode_from(s@, i as int));
    } else if c == '%' && n - i >= 3 {
        let h1 = hex_val(s.get_char(i + 1));
        let h2 = hex_val(s.get_char(i + 2));
        match (h1, h2) {
            (Some(v1), Some(v2)) => {
                push_char(out, (v1 * 16 + v2) as char);
                decode_into(s, n, i + 3, out);
                assert(out@ =~= old(out)@ + spec_decode_from(s@, i as int));
            },
            _ => {
                push_char(out, c);
                decode_into(s, n, i + 1, out);
                assert(!is_escape_at(s@, i as int));
                assert(out@ =~= old(out)@ + spec_decode_from(s@, i as int));
            },
        }
    } else {
        push_char(out, c);
        decode_into(s, n, i + 1, out);
        assert(!is_escape_at(s@, i as int));
        assert(out@ =~= old(out)@ + spec_decode_from(s@, i as int));
    }
}

fn find_char(s: &str, n: usize, sep: char, i: usize) -> (r: usize)
    requires
        n == s@.len(),
        i <= n,
    ensures
        r == spec_find_char(s@, sep, i as int),
        i <= r <= n,
    decreases n - i,
{
    if i >= n {
        n
    } else if s.get_char(i) == sep {
        i
    } else {
        find_char(s, n, sep, i + 1)
    }
}

/// The view of a vector of string pairs, as sequences of characters.
pub open spec fn pairs_view(v: Seq<(String, String)>) -> Seq<(Seq<char>, Seq<char>)> {
    v.map_values(|p: (String, String)| (p.0@, p.1@))
}

fn decode_range(s: &str, n: usize, from: usize, to: usize) -> (r: String)
    requires
        n == s@.len(),
        from <= to <= n,
    ensures
        r@ == spec_decode(s@.subrange(from as int, to as int)),
{
    let sub = s.substring_char(from, to);
    let m = sub.unicode_len();
    let mut out = String::new();
    decode_into(sub, m, 0, &mut out);
    out
}

/// Parses a query string into its decoded key/value pairs.
pub fn parse_query_pairs(q: &str) -> (r: Vec<(String, String)>)
    ensures
        pairs_view(r@) == spec_query_pairs(q@),
{
    let n = q.unicode_len();
    let mut out: Vec<(String, String)> = Vec::new();
    let mut i: usize = 0;
    proof {
        assert(pairs_view(out@) =~= Seq::<(Seq<char>, Seq<char>)>::empty());
    }
    while i < n
        invariant
            n == q@.len(),
            i <= n + 1,
            spec_query_pairs(q@) == pairs_view(out@) + spec_pairs_from(q@, i as int),
        decreases n + 1 - i,
    {
        let e = find_char(q, n, '&', i);
        if e > i {
            let head = q.substring_char(0, e);
            proof {
                assert(head@ == q@.subrange(0, e as int));
            }
            let hn = head.unicode_len();
            let m = find_char(head, hn, '=', i);
            proof {
                assert(i <= m <= e);
                assert(q@.subrange(i as int, m as int) =~= head@.subrange(i as int, m as int));
            }
            let key = decode_range(q, n, i, m);
            let val = if m < e {
                proof {
                    assert(q@.subrange((m + 1) as int, e as int) =~= head@.subrange(
                        (m + 1) as int,
                        e as int,
                    ));
                }
                decode_range(q, n, m + 1, e)
            } else {
                String::new()
            };
            let ghost old_out = out@;
            out.push((key, val));
            proof {
                assert(pairs_view(out@) =~= pairs_view(old_out) + seq![(key@, val@)]);
                assert(spec_pairs_from(q@, i as int) =~= seq![(key@, val@)] + spec_pairs_from(
                    q@,
                    e as int + 1,
                ));
                assert(pairs_view(old_out) + spec_pairs_from(q@, i as int) =~= pairs_view(out@)
                    + spec_pairs_from(q@, e as int + 1));
            }
        }
        if e < n {
            i = e + 1;
        } else {
            proof {
                assert(spec_pairs_from(q@, e as int + 1)
                    =~= Seq::<(Seq<char>, Seq<char>)>::empty());
                assert(spec_pairs_from(q@, n as int) =~= Seq::<(Seq<char>, Seq<char>)>::empty());
            }
            i = n;
        }
    }
    proof {
        assert(spec_pairs_from(q@, i as int) =~= Seq::<(Seq<char>, Seq<char>)>::empty());
        assert(pairs_view(out@) + spec_pairs_from(q@, i as int) =~= pairs_view(out@));
    }
    out
}

/// The value of the first pair whose key equals `key`.
fn find_pair(pairs: &Vec<(String, String)>, key: &str) -> (r: Option<String>)
    ensures
        match r {
            Some(v) => spec_find_pair(pairs_view(pairs@), key@) == Some(v@),
            None => spec_find_pair(pairs_view(pairs@), key@) is None,
        },
{
    let key_owned = key.to_owned();
    let mut i: usize = 0;
    proof {
        assert(pairs_view(pairs@).skip(0) =~= pairs_view(pairs@));
    }
    while i < pairs.len()
        invariant
            i <= pairs@.len(),
            key_owned@ == key@,
            spec_find_pair(pairs_view(pairs@), key@) == spec_find_pair(
                pairs_view(pairs@).skip(i as int),
                key@,
            ),
        decreases pairs@.len() - i,
    {
        proof {
            let p = pairs@[i as int];
            assert(pairs_view(pairs@).skip(i as int)[0] == (p.0@, p.1@));
        }
        if pairs[i].0.eq(&key_owned) {
            return Some(pairs[i].1.clone());
        }
        proof {
            assert(pairs_view(pairs@).skip(i as int).skip(1) =~= pairs_view(pairs@).skip(
                i as int + 1,
            ));
        }
        i = i + 1;
    }
    proof {
        assert(pairs_view(pairs@).skip(i as int).len() == 0);
    }
    None
}

/// The decision the callback listener takes on the one request it
/// accepts, given the request target: the `code` parameter when present,
/// otherwise a rejection carrying the provider's `error` text when one
/// was sent.
pub fn callback_code(target: &str) -> (r: Result<String, AuthError>)
    ensures
        ({
            let pairs = spec_query_pairs(spec_query_of_target(target@));
            match r {
                Ok(code) => spec_find_pair(pairs, "code"@) == Some(code@),
                Err(e) => spec_find_pair(pairs, "code"@) is None && (match e {
                    AuthError::CallbackRejected { detail: Some(d) } => spec_find_pair(
                        pairs,
                        "error"@,
                    ) == Some(d@),
                    AuthError::CallbackRejected { detail: None } => spec_find_pair(
                        pairs,
                        "error"@,
                    ) is None,
                    _ => false,
                }),
            }
        }),
{
    let n = target.unicode_len();
    let p = find_char(target, n, '?', 0);
    let query = if p < n {
        target.substring_char(p + 1, n)
    } else {
        ""
    };
    proof {
        reveal_strlit("");
        if p < n {
            assert(query@ == spec_query_of_target(target@));
        } else {
            assert(query@ =~= spec_query_of_target(target@));
        }
    }
    let pairs = parse_query_pairs(query);
    match find_pair(&pairs, "code") {
        Some(code) => Ok(code),
        None => match find_pair(&pairs, "error") {
            Some(detail) => Err(AuthError::CallbackRejected { detail: Some(detail) }),
            None => Err(AuthError::CallbackRejected { detail: None }),
        },
    }
}

} // verus!
