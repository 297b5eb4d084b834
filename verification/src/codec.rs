//! The credential's on-disk form: a JSON document with exactly the
//! members `access_token`, `refresh_token` and `expires_at`. The writer
//! emits the compact form; the reader also accepts insignificant
//! whitespace between tokens, so documents written by pretty printers
//! load the same. String members carry no escapes: a token containing a
//! quote, a backslash or a control character is not well formed here,
//! and a document using escapes is treated as unreadable — upstream that
//! simply means "no session".

use vstd::prelude::*;
use vstd::string::StringExecFns;
use vstd::string::StrSliceExecFns;
use crate::credential::AuthToken;
use crate::text::{dec_digits, digit_char, digit_val, is_digit, is_ws, u64_to_string};

verus! {

/// A character that may stand unescaped inside a JSON string.
pub open spec fn json_safe_char(c: char) -> bool {
    c != '"' && c != '\\' && c as u32 >= 32
}

/// A token that can be persisted verbatim between quotes.
pub open spec fn wf_token(s: Seq<char>) -> bool {
    forall|i: int| 0 <= i < s.len() ==> json_safe_char(#[trigger] s[i])
}

/// A credential whose tokens can be persisted verbatim.
pub open spec fn wf_auth_token(t: AuthToken) -> bool {
    wf_token(t.access_token@) && wf_token(t.refresh_token@)
}

/// The serialized form of a credential: compact JSON, members in a fixed
/// order, field names the compatibility surface of the store.
pub open spec fn spec_token_json(access: Seq<char>, refresh: Seq<char>, expires_at: u64) -> Seq<
    char,
> {
    "{\"access_token\":\""@ + access + "\",\"refresh_token\":\""@ + refresh
        + "\",\"expires_at\":"@ + dec_digits(expires_at) + "}"@
}

/// First non-whitespace position at or after `i`.
pub open spec fn spec_skip_ws(s: Seq<char>, i: int) -> int
    decreases s.len() - i,
{
    if i < 0 || i >= s.len() {
        i
    } else if is_ws(s[i]) {
        spec_skip_ws(s, i + 1)
    } else {
        i
    }
}

/// Position after `lit`, when `s` carries `lit` verbatim at `i`.
pub open spec fn spec_match_at(s: Seq<char>, i: int, lit: Seq<char>) -> Option<int> {
    if 0 <= i && i + lit.len() <= s.len() && s.subrange(i, i + lit.len()) == lit {
        Some(i + lit.len())
    } else {
        None
    }
}

/// Position of the closing quote of a string opened just before `i`, or
/// a negative number when the string is unterminated or carries an
/// escape or control character.
pub open spec fn spec_string_end(s: Seq<char>, i: int) -> int
    decreases s.len() - i,
{
    if i < 0 || i >= s.len() {
        -1
    } else if s[i] == '"' {
        i
    } else if s[i] == '\\' || (s[i] as u32) < 32 {
        -1
    } else {
        spec_string_end(s, i + 1)
    }
}

/// The body of a string whose opening quote stands just before `i`, and
/// the position after its closing quote.
pub open spec fn spec_parse_string(s: Seq<char>, i: int) -> Option<(Seq<char>, int)> {
    let e = spec_string_end(s, i);
    if e >= i {
        Some((s.subrange(i, e), e + 1))
    } else {
        None
    }
}

/// Reads a run of digits from `i` into the accumulator, failing on
/// overflow; ends at the first non-digit.
pub open spec fn spec_read_u64(s: Seq<char>, i: int, acc: u64) -> Option<(u64, int)>
    decreases s.len() - i,
{
    if 0 <= i && i < s.len() && is_digit(s[i]) {
        let d = digit_val(s[i]);
        if acc as int * 10 + d <= u64::MAX {
            spec_read_u64(s, i + 1, (acc as int * 10 + d) as u64)
        } else {
            None
        }
    } else {
        Some((acc, i))
    }
}

/// A decimal number at `i`: at least one digit, value within `u64`.
pub open spec fn spec_parse_u64(s: Seq<char>, i: int) -> Option<(u64, int)> {
    if 0 <= i && i < s.len() && is_digit(s[i]) {
        spec_read_u64(s, i, 0)
    } else {
        None
    }
}

/// Position after `key` and its following colon, whitespace allowed
/// around both.
pub open spec fn spec_after_key(s: Seq<char>, i: int, key: Seq<char>) -> Option<int> {
    match spec_match_at(s, spec_skip_ws(s, i), key) {
        None => None,
        Some(j) => match spec_match_at(s, spec_skip_ws(s, j), ":"@) {
            None => None,
            Some(k) => Some(spec_skip_ws(s, k)),
        },
    }
}

/// A `"key": "value"` member: the value and the position after it.
pub open spec fn spec_string_member(s: Seq<char>, i: int, key: Seq<char>) -> Option<
    (Seq<char>, int),
> {
    match spec_after_key(s, i, key) {
        None => None,
        Some(j) => match spec_match_at(s, j, "\""@) {
            None => None,
            Some(k) => spec_parse_string(s, k),
        },
    }
}

/// What a credential document denotes: the two tokens and the expiry
/// instant, or nothing when the text is not such a document. This is
/// the exact grammar the reader accepts: one object, the three members
/// in order, insignificant whitespace anywhere between tokens.
pub open spec fn spec_parse_credential(s: Seq<char>) -> Option<(Seq<char>, Seq<char>, u64)> {
    match spec_match_at(s, spec_skip_ws(s, 0), "{"@) {
        None => None,
        Some(i0) => match spec_string_member(s, i0, "\"access_token\""@) {
            None => None,
            Some((access, i1)) => match spec_match_at(s, spec_skip_ws(s, i1), ","@) {
                None => None,
                Some(i2) => match spec_string_member(s, i2, "\"refresh_token\""@) {
                    None => None,
                    Some((refresh, i3)) => match spec_match_at(s, spec_skip_ws(s, i3), ","@) {
                        None => None,
                        Some(i4) => match spec_after_key(s, i4, "\"expires_at\""@) {
                            None => None,
                            Some(i5) => match spec_parse_u64(s, i5) {
                                None => None,
                                Some((num, i6)) => match spec_match_at(
                                    s,
                                    spec_skip_ws(s, i6),
                                    "}"@,
                                ) {
                                    None => None,
                                    Some(i7) => if spec_skip_ws(s, i7) == s.len() {
                                        Some((access, refresh, num))
                                    } else {
                                        None
                                    },
                                },
                            },
                        },
                    },
                },
            },
        },
    }
}

fn is_json_safe(s: &str) -> (r: bool)
    ensures
        r == wf_token(s@),
{
    let n = s.unicode_len();
    let mut i: usize = 0;
    while i < n
        invariant
            n == s@.len(),
            i <= n,
            forall|k: int| 0 <= k < i ==> json_safe_char(#[trigger] s@[k]),
        decreases n - i,
    {
        let c = s.get_char(i);
        if c == '"' || c == '\\' || (c as u32) < 32 {
            return false;
        }
        i = i + 1;
    }
    true
}

/// Serializes a credential for the store: the compact document, or
/// nothing when a token cannot be persisted verbatim.
pub fn auth_token_to_json(t: &AuthToken) -> (r: Option<String>)
    ensures
        match r {
            Some(js) => wf_auth_token(*t) && js@ == spec_token_json(
                t.access_token@,
                t.refresh_token@,
                t.expires_at,
            ),
            None => !wf_auth_token(*t),
        },
{
    if !is_json_safe(t.access_token.as_str()) {
        return None;
    }
    if !is_json_safe(t.refresh_token.as_str()) {
        return None;
    }
    let mut js = String::new();
    js.append("{\"access_token\":\"");
    js.append(t.access_token.as_str());
    js.append("\",\"refresh_token\":\"");
    js.append(t.refresh_token.as_str());
    js.append("\",\"expires_at\":");
    js.append(u64_to_string(t.expires_at).as_str());
    js.append("}");
    Some(js)
}

fn skip_ws(s: &str, n: usize, i: usize) -> (r: usize)
    requires
        n == s@.len(),
        i <= n,
    ensures
        r == spec_skip_ws(s@, i as int),
        i <= r <= n,
    decreases n - i,
{
    if i >= n {
        i
    } else {
        let c = s.get_char(i);
        if c == ' ' || c == '\n' || c == '\t' || c == '\r' {
            skip_ws(s, n, i + 1)
        } else {
            i
        }
    }
}

fn match_lit(s: &str, n: usize, i: usize, lit: &str) -> (r: Option<usize>)
    requires
        n == s@.len(),
        i <= n,
    ensures
        match r {
            Some(j) => spec_match_at(s@, i as int, lit@) == Some(j as int) && i <= j <= n,
            None => spec_match_at(s@, i as int, lit@) is None,
        },
{
    let m = lit.unicode_len();
    if m > n - i {
        return None;
    }
    let mut j: usize = 0;
    while j < m
        invariant
            n == s@.len(),
            m == lit@.len(),
            i + m <= n,
            j <= m,
            forall|k: int| 0 <= k < j ==> s@[i + k] == lit@[k],
        decreases m - j,
    {
        if s.get_char(i + j) != lit.get_char(j) {
            proof {
                assert(s@.subrange(i as int, i as int + m as int)[j as int] != lit@[j as int]);
            }
            return None;
        }
        j = j + 1;
    }
    proof {
        assert(s@.subrange(i as int, i as int + m as int) =~= lit@);
    }
    Some(i + m)
}

fn string_end(s: &str, n: usize, i: usize) -> (r: Option<usize>)
    requires
        n == s@.len(),
        i <= n,
    ensures
        match r {
            Some(e) => spec_string_end(s@, i as int) == e as int && i <= e < n,
            None => spec_string_end(s@, i as int) == -1,
        },
    decreases n - i,
{
    if i >= n {
        None
    } else {
        let c = s.get_char(i);
        if c == '"' {
            Some(i)
        } else if c == '\\' || (c as u32) < 32 {
            None
        } else {
            string_end(s, n, i + 1)
        }
    }
}

fn parse_string_at(s: &str, n: usize, i: usize) -> (r: Option<(String, usize)>)
    requires
        n == s@.len(),
        i <= n,
    ensures
        match r {
            Some(p) => spec_parse_string(s@, i as int) == Some((p.0@, p.1 as int)) && i <= p.1
                <= n,
            None => spec_parse_string(s@, i as int) is None,
        },
{
    match string_end(s, n, i) {
        None => None,
        Some(e) => {
            let v = s.substring_char(i, e).to_owned();
            Some((v, e + 1))
        },
    }
}

fn read_u64(s: &str, n: usize, i: usize, acc: u64) -> (r: Option<(u64, usize)>)
    requires
        n == s@.len(),
        i <= n,
    ensures
        match r {
            Some(p) => spec_read_u64(s@, i as int, acc) == Some((p.0, p.1 as int)) && i <= p.1
                <= n,
            None => spec_read_u64(s@, i as int, acc) is None,
        },
    decreases n - i,
{
    if i < n {
        let c = s.get_char(i);
        if c >= '0' && c <= '9' {
            let d = (c as u32 - 48) as u64;
            if acc <= (u64::MAX - d) / 10 {
                return read_u64(s, n, i + 1, acc * 10 + d);
            } else {
                return None;
            }
        }
    }
    Some((acc, i))
}

fn parse_u64_at(s: &str, n: usize, i: usize) -> (r: Option<(u64, usize)>)
    requires
        n == s@.len(),
        i <= n,
    ensures
        match r {
            Some(p) => spec_parse_u64(s@, i as int) == Some((p.0, p.1 as int)) && i <= p.1 <= n,
            None => spec_parse_u64(s@, i as int) is None,
        },
{
    if i < n {
        let c = s.get_char(i);
        if c >= '0' && c <= '9' {
            return read_u64(s, n, i, 0);
        }
    }
    None
}

fn after_key(s: &str, n: usize, i: usize, key: &str) -> (r: Option<usize>)
    requires
        n == s@.len(),
        i <= n,
    ensures
        match r {
            Some(j) => spec_after_key(s@, i as int, key@) == Some(j as int) && i <= j <= n,
            None => spec_after_key(s@, i as int, key@) is None,
        },
{
    let j = skip_ws(s, n, i);
    match match_lit(s, n, j, key) {
        None => None,
        Some(j2) => {
            let j3 = skip_ws(s, n, j2);
            match match_lit(s, n, j3, ":") {
                None => None,
                Some(j4) => Some(skip_ws(s, n, j4)),
            }
        },
    }
}

fn string_member(s: &str, n: usize, i: usize, key: &str) -> (r: Option<(String, usize)>)
    requires
        n == s@.len(),
        i <= n,
    ensures
        match r {
            Some(p) => spec_string_member(s@, i as int, key@) == Some((p.0@, p.1 as int)) && i
                <= p.1 <= n,
            None => spec_string_member(s@, i as int, key@) is None,
        },
{
    match after_key(s, n, i, key) {
        None => None,
        Some(j) => match match_lit(s, n, j, "\"") {
            None => None,
            Some(k) => parse_string_at(s, n, k),
        },
    }
}

/// Reads a credential back from its serialized form; any deviation from
/// the document grammar yields nothing.
pub fn auth_token_from_json(s: &str) -> (r: Option<AuthToken>)
    ensures
        match r {
            Some(t) => spec_parse_credential(s@) == Some(
                (t.access_token@, t.refresh_token@, t.expires_at),
            ),
            None => spec_parse_credential(s@) is None,
        },
{
    let n = s.unicode_len();
    let i0 = skip_ws(s, n, 0);
    let i1 = match match_lit(s, n, i0, "{") {
        None => {
            return None;
        },
        Some(j) => j,
    };
    let (access, i2) = match string_member(s, n, i1, "\"access_token\"") {
        None => {
            return None;
        },
        Some(p) => p,
    };
    let i3 = match match_lit(s, n, skip_ws(s, n, i2), ",") {
        None => {
            return None;
        },
        Some(j) => j,
    };
    let (refresh, i4) = match string_member(s, n, i3, "\"refresh_token\"") {
        None => {
            return None;
        },
        Some(p) => p,
    };
    let i5 = match match_lit(s, n, skip_ws(s, n, i4), ",") {
        None => {
            return None;
        },
        Some(j) => j,
    };
    let i6 = match after_key(s, n, i5, "\"expires_at\"") {
        None => {
            return None;
        },
        Some(j) => j,
    };
    let (num, i7) = match parse_u64_at(s, n, i6) {
        None => {
            return None;
        },
        Some(p) => p,
    };
    let i8 = match match_lit(s, n, skip_ws(s, n, i7), "}") {
        None => {
            return None;
        },
        Some(j) => j,
    };
    if skip_ws(s, n, i8) != n {
        return None;
    }
    Some(AuthToken { access_token: access, refresh_token: refresh, expires_at: num })
}

/// Ten to the `k`.
pub open spec fn pow10(k: nat) -> int
    decreases k,
{
    if k == 0 {
        1
    } else {
        10 * pow10((k - 1) as nat)
    }
}

/// The value of the digit run `s[i..e)` folded onto `acc`.
spec fn spec_digits_val(s: Seq<char>, i: int, e: int, acc: int) -> int
    decreases e - i,
{
    if i < e {
        spec_digits_val(s, i + 1, e, acc * 10 + digit_val(s[i]))
    } else {
        acc
    }
}

proof fn lemma_digits_val_lower(s: Seq<char>, i: int, e: int, acc: int)
    requires
        i <= e <= s.len(),
        acc >= 0,
        forall|k: int| i <= k < e ==> is_digit(#[trigger] s[k]),
    ensures
        spec_digits_val(s, i, e, acc) >= acc,
    decreases e - i,
{
    if i < e {
        assert(is_digit(s[i]));
        assert(digit_val(s[i]) >= 0);
        lemma_digits_val_lower(s, i + 1, e, acc * 10 + digit_val(s[i]));
    }
}

proof fn lemma_digits_val_split_last(s: Seq<char>, i: int, e: int, acc: int)
    requires
        i < e,
    ensures
        spec_digits_val(s, i, e, acc) == spec_digits_val(s, i, e - 1, acc) * 10 + digit_val(
            s[e - 1],
        ),
    decreases e - i,
{
    if i + 1 < e {
        lemma_digits_val_split_last(s, i + 1, e, acc * 10 + digit_val(s[i]));
    } else {
        assert(spec_digits_val(s, i + 1, e, acc * 10 + digit_val(s[i])) == acc * 10 + digit_val(
            s[i],
        ));
        assert(spec_digits_val(s, i, e - 1, acc) == acc);
    }
}

proof fn lemma_dec_digits_val(s: Seq<char>, i: int, n: u64, acc: int)
    requires
        0 <= i,
        i + dec_digits(n).len() <= s.len(),
        s.subrange(i, i + dec_digits(n).len() as int) == dec_digits(n),
    ensures
        spec_digits_val(s, i, i + dec_digits(n).len() as int, acc) == acc * pow10(
            dec_digits(n).len() as nat,
        ) + n,
    decreases n,
{
    let len = dec_digits(n).len() as int;
    if n < 10 {
        assert(s[i] == dec_digits(n)[0]);
        assert(digit_val(digit_char(n)) == n);
        assert(spec_digits_val(s, i + 1, i + 1, acc * 10 + digit_val(s[i])) == acc * 10
            + digit_val(s[i]));
        assert(spec_digits_val(s, i, i + 1, acc) == acc * 10 + n);
        assert(pow10(0) == 1);
        assert(pow10(1) == 10);
    } else {
        let prefix = dec_digits(n / 10);
        let plen = prefix.len() as int;
        assert(dec_digits(n) == prefix.push(digit_char(n % 10)));
        assert(len == plen + 1);
        assert(s.subrange(i, i + plen) =~= prefix) by {
            assert(forall|k: int|
                0 <= k < plen ==> s.subrange(i, i + plen)[k] == dec_digits(n)[k]);
        }
        lemma_dec_digits_val(s, i, n / 10, acc);
        lemma_digits_val_split_last(s, i, i + len, acc);
        assert(s[i + len - 1] == dec_digits(n)[len - 1]);
        assert(digit_val(digit_char(n % 10)) == n % 10);
        assert(pow10(len as nat) == 10 * pow10(plen as nat));
        assert((acc * pow10(plen as nat) + (n / 10) as int) * 10 + (n % 10) as int == acc * (10
            * pow10(plen as nat)) + ((n / 10) as int * 10 + (n % 10) as int))
            by (nonlinear_arith);
        assert((n / 10) as int * 10 + (n % 10) as int == n as int);
    }
}

proof fn lemma_read_run(s: Seq<char>, i: int, e: int, acc: u64)
    requires
        0 <= i <= e <= s.len(),
        forall|k: int| i <= k < e ==> is_digit(#[trigger] s[k]),
        e == s.len() || !is_digit(s[e]),
        spec_digits_val(s, i, e, acc as int) <= u64::MAX,
    ensures
        spec_read_u64(s, i, acc) == Some(
            (spec_digits_val(s, i, e, acc as int) as u64, e),
        ),
    decreases e - i,
{
    if i < e {
        let d = digit_val(s[i]);
        assert(is_digit(s[i]));
        assert(0 <= d < 10);
        lemma_digits_val_lower(s, i + 1, e, acc as int * 10 + d);
        lemma_read_run(s, i + 1, e, (acc as int * 10 + d) as u64);
    }
}

proof fn lemma_parse_dec(s: Seq<char>, i: int, n: u64)
    requires
        0 <= i,
        i + dec_digits(n).len() <= s.len(),
        s.subrange(i, i + dec_digits(n).len() as int) == dec_digits(n),
        i + dec_digits(n).len() == s.len() || !is_digit(s[i + dec_digits(n).len()]),
    ensures
        spec_parse_u64(s, i) == Some((n, i + dec_digits(n).len())),
{
    let len = dec_digits(n).len() as int;
    crate::text::lemma_dec_digits_are_digits(n);
    assert(forall|k: int| i <= k < i + len ==> is_digit(#[trigger] s[k])) by {
        assert(forall|k: int|
            i <= k < i + len ==> #[trigger] s[k] == dec_digits(n)[k - i] && is_digit(
                dec_digits(n)[k - i],
            ));
    }
    lemma_dec_digits_val(s, i, n, 0);
    assert(0 * pow10(len as nat) + n == n);
    lemma_read_run(s, i, i + len, 0);
    assert(s[i] == dec_digits(n)[0]);
}

proof fn lemma_string_end_at(s: Seq<char>, i: int, m: int)
    requires
        0 <= i <= m < s.len(),
        forall|k: int| i <= k < m ==> json_safe_char(#[trigger] s[k]),
        s[m] == '"',
    ensures
        spec_string_end(s, i) == m,
    decreases m - i,
{
    if i < m {
        assert(json_safe_char(s[i]));
        lemma_string_end_at(s, i + 1, m);
    }
}

/// The store's round trip: a well-formed credential, once serialized,
/// parses back to exactly its fields — loading what was saved returns
/// the same credential.
#[verifier::rlimit(100)]
pub proof fn lemma_codec_round_trip(access: Seq<char>, refresh: Seq<char>, expires_at: u64)
    requires
        wf_token(access),
        wf_token(refresh),
    ensures
        spec_parse_credential(spec_token_json(access, refresh, expires_at)) == Some(
            (access, refresh, expires_at),
        ),
{
    reveal_strlit("{\"access_token\":\"");
    reveal_strlit("\",\"refresh_token\":\"");
    reveal_strlit("\",\"expires_at\":");
    reveal_strlit("}");
    reveal_strlit("{");
    reveal_strlit("\"access_token\"");
    reveal_strlit("\"refresh_token\"");
    reveal_strlit("\"expires_at\"");
    reveal_strlit(":");
    reveal_strlit("\"");
    reveal_strlit(",");
    let l1 = "{\"access_token\":\""@;
    let l2 = "\",\"refresh_token\":\""@;
    let l3 = "\",\"expires_at\":"@;
    let d = dec_digits(expires_at);
    let l4 = "}"@;
    let s = spec_token_json(access, refresh, expires_at);
    let a = access.len() as int;
    let r = refresh.len() as int;
    let dl = d.len() as int;
    crate::text::lemma_dec_digits_are_digits(expires_at);
    assert(l1.len() == 17);
    assert(l2.len() == 19);
    assert(l3.len() == 15);
    assert(s.len() == 52 + a + r + dl);
    // The document, piece by piece.
    assert(forall|k: int| 0 <= k < 17 ==> s[k] == l1[k]);
    assert(forall|k: int| 0 <= k < a ==> s[17 + k] == access[k]);
    assert(forall|k: int| 0 <= k < 19 ==> s[17 + a + k] == l2[k]);
    assert(forall|k: int| 0 <= k < r ==> s[36 + a + k] == refresh[k]);
    assert(forall|k: int| 0 <= k < 15 ==> s[36 + a + r + k] == l3[k]);
    assert(forall|k: int| 0 <= k < dl ==> s[51 + a + r + k] == d[k]);
    assert(s[51 + a + r + dl] == '}');
    // `{`
    assert(spec_skip_ws(s, 0) == 0);
    assert(s.subrange(0, 1) =~= "{"@);
    assert(spec_match_at(s, 0, "{"@) == Some(1int));
    // `"access_token"` `:` `"`
    assert(spec_skip_ws(s, 1) == 1);
    assert(s.subrange(1, 15) =~= "\"access_token\""@);
    assert(spec_match_at(s, 1, "\"access_token\""@) == Some(15int));
    assert(spec_skip_ws(s, 15) == 15);
    assert(s.subrange(15, 16) =~= ":"@);
    assert(spec_match_at(s, 15, ":"@) == Some(16int));
    assert(spec_skip_ws(s, 16) == 16);
    assert(spec_after_key(s, 1, "\"access_token\""@) == Some(16int));
    assert(s.subrange(16, 17) =~= "\""@);
    assert(spec_match_at(s, 16, "\""@) == Some(17int));
    // the access token body
    assert(s[17 + a] == '"');
    lemma_string_end_at(s, 17, 17 + a);
    assert(s.subrange(17, 17 + a) =~= access);
    assert(spec_parse_string(s, 17) == Some((access, 18 + a)));
    assert(spec_string_member(s, 1, "\"access_token\""@) == Some((access, 18 + a)));
    // `,`
    assert(s[18 + a] == ',');
    assert(spec_skip_ws(s, 18 + a) == 18 + a);
    assert(s.subrange(18 + a, 19 + a) =~= ","@);
    assert(spec_match_at(s, 18 + a, ","@) == Some(19 + a));
    // `"refresh_token"` `:` `"`
    assert(s[19 + a] == '"');
    assert(spec_skip_ws(s, 19 + a) == 19 + a);
    assert(s.subrange(19 + a, 34 + a) =~= "\"refresh_token\""@);
    assert(spec_match_at(s, 19 + a, "\"refresh_token\""@) == Some(34 + a));
    assert(s[34 + a] == ':');
    assert(spec_skip_ws(s, 34 + a) == 34 + a);
    assert(s.subrange(34 + a, 35 + a) =~= ":"@);
    assert(spec_match_at(s, 34 + a, ":"@) == Some(35 + a));
    assert(s[35 + a] == '"');
    assert(spec_skip_ws(s, 35 + a) == 35 + a);
    assert(spec_after_key(s, 19 + a, "\"refresh_token\""@) == Some(35 + a));
    assert(s.subrange(35 + a, 36 + a) =~= "\""@);
    assert(spec_match_at(s, 35 + a, "\""@) == Some(36 + a));
    // the refresh token body
    assert(s[36 + a + r] == '"');
    lemma_string_end_at(s, 36 + a, 36 + a + r);
    assert(s.subrange(36 + a, 36 + a + r) =~= refresh);
    assert(spec_parse_string(s, 36 + a) == Some((refresh, 37 + a + r)));
    assert(spec_string_member(s, 19 + a, "\"refresh_token\""@) == Some((refresh, 37 + a + r)));
    // `,`
    assert(s[37 + a + r] == ',');
    assert(spec_skip_ws(s, 37 + a + r) == 37 + a + r);
    assert(s.subrange(37 + a + r, 38 + a + r) =~= ","@);
    assert(spec_match_at(s, 37 + a + r, ","@) == Some(38 + a + r));
    // `"expires_at"` `:`
    assert(s[38 + a + r] == '"');
    assert(spec_skip_ws(s, 38 + a + r) == 38 + a + r);
    assert(s.subrange(38 + a + r, 50 + a + r) =~= "\"expires_at\""@);
    assert(spec_match_at(s, 38 + a + r, "\"expires_at\""@) == Some(50 + a + r));
    assert(s[50 + a + r] == ':');
    assert(spec_skip_ws(s, 50 + a + r) == 50 + a + r);
    assert(s.subrange(50 + a + r, 51 + a + r) =~= ":"@);
    assert(spec_match_at(s, 50 + a + r, ":"@) == Some(51 + a + r));
    assert(is_digit(d[0]));
    assert(!is_ws(s[51 + a + r]));
    assert(spec_skip_ws(s, 51 + a + r) == 51 + a + r);
    assert(spec_after_key(s, 38 + a + r, "\"expires_at\""@) == Some(51 + a + r));
    // the number
    assert(s.subrange(51 + a + r, 51 + a + r + dl) =~= d);
    assert(!is_digit(s[51 + a + r + dl]));
    lemma_parse_dec(s, 51 + a + r, expires_at);
    assert(spec_parse_u64(s, 51 + a + r) == Some((expires_at, 51 + a + r + dl)));
    // `}` and the end
    assert(spec_skip_ws(s, 51 + a + r + dl) == 51 + a + r + dl);
    assert(s.subrange(51 + a + r + dl, 52 + a + r + dl) =~= "}"@);
    assert(spec_match_at(s, 51 + a + r + dl, "}"@) == Some(52 + a + r + dl));
    assert(spec_skip_ws(s, 52 + a + r + dl) == 52 + a + r + dl);
    assert(spec_parse_credential(s) == Some((access, refresh, expires_at)));
}

} // verus!
