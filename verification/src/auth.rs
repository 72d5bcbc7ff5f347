//! Credential checking.  Both gates — the `Authorization: Basic` header on
//! ordinary requests and the `auth=` query parameter on the socket-upgrade
//! request — carry the base64 encoding of `username:password`, and both
//! decode it and compare the two fields against the configured pair.

use vstd::prelude::*;
use vstd::slice::slice_index_get;
use vstd::string::StrSliceExecFns;
use vstd::string::StringSliceAdditionalSpecFns;
use vstd::utf8::encode_utf8;
use crate::config::Config;
use base64::Engine;

verus! {

/// The bytes that decoding `text` as standard base64 yields, if `text` is
/// a valid encoding.
pub uninterp spec fn base64_decode_of(text: Seq<char>) -> Option<Seq<u8>>;

/// A character the standard base64 alphabet uses: letters, digits, `+`,
/// `/`, and the padding `=`.
pub open spec fn is_base64_symbol(c: char) -> bool {
    ||| 'A' <= c && c <= 'Z'
    ||| 'a' <= c && c <= 'z'
    ||| '0' <= c && c <= '9'
    ||| c == '+'
    ||| c == '/'
    ||| c == '='
}

/// Relies on base64's `Engine::decode` with the `STANDARD` engine: the
/// decoded bytes are a function of the input text alone, and the engine
/// rejects any input holding a byte outside its alphabet and padding, so a
/// text that decodes consists of base64 symbols only.
#[verifier::external_body]
fn decode_base64(text: &str) -> (r: Option<Vec<u8>>)
    ensures
        match r {
            Some(bytes) => base64_decode_of(text@) == Some(bytes@),
            None => base64_decode_of(text@) is None,
        },
        r is Some ==> forall|i: int| 0 <= i < text@.len() ==> is_base64_symbol(#[trigger] text@[i]),
{
    base64::engine::general_purpose::STANDARD.decode(text).ok()
}

/// Index of the first colon byte in the decoded credentials, or their
/// length if there is none.
pub open spec fn colon_split(d: Seq<u8>) -> int
    decreases d.len(),
{
    if d.len() == 0 {
        0
    } else if d[0] == 58 {
        0
    } else {
        1 + colon_split(d.skip(1))
    }
}

/// A scan that saw no colon byte before `i`, and one at `i` unless it ran
/// off the end, has found the first colon.
proof fn lemma_colon_split_is(d: Seq<u8>, i: int)
    requires
        0 <= i <= d.len(),
        forall|j: int| 0 <= j < i ==> d[j] != 58,
        i < d.len() ==> d[i] == 58,
    ensures
        colon_split(d) == i,
    decreases i,
{
    if i == 0 {
        if d.len() > 0 && d[0] != 58 {
            assert(false);
        }
    } else {
        assert(d[0] != 58);
        let t = d.skip(1);
        assert forall|j: int| 0 <= j < i - 1 implies t[j] != 58 by {
            assert(t[j] == d[j + 1]);
        }
        assert(i - 1 < t.len() ==> t[i - 1] == d[i]);
        lemma_colon_split_is(t, i - 1);
    }
}

/// Whether decoded credential bytes match the configured pair: the bytes
/// up to the first colon are the username's UTF-8 encoding and the bytes
/// after it the password's.  Without a colon there is no second field, so
/// the password compared against is empty.
pub open spec fn decoded_matches(d: Seq<u8>, username: Seq<char>, password: Seq<char>) -> bool {
    let k = colon_split(d);
    let user = d.take(k);
    let pass = if k < d.len() {
        d.skip(k + 1)
    } else {
        Seq::<u8>::empty()
    };
    user == encode_utf8(username) && pass == encode_utf8(password)
}

/// Whether `data[start..end]` is exactly `expect`.
fn range_matches(data: &Vec<u8>, start: usize, end: usize, expect: &[u8]) -> (r: bool)
    requires
        start <= end <= data@.len(),
    ensures
        r == (data@.subrange(start as int, end as int) == expect@),
{
    if end - start != expect.len() {
        return false;
    }
    let mut j: usize = 0;
    while j < expect.len()
        invariant
            0 <= j <= expect@.len(),
            start <= end <= data@.len(),
            end - start == expect@.len(),
            forall|t: int| 0 <= t < j ==> data@[start + t] == expect@[t],
        decreases expect@.len() - j,
    {
        if data[start + j] != *slice_index_get(expect, j) {
            proof {
                assert(data@.subrange(start as int, end as int)[j as int] != expect@[j as int]);
            }
            return false;
        }
        j += 1;
    }
    proof {
        assert(data@.subrange(start as int, end as int) =~= expect@);
    }
    true
}

/// Whether decoded credential bytes match the configured username and
/// password.
pub fn credentials_match(decoded: &Vec<u8>, config: &Config) -> (r: bool)
    ensures
        r == decoded_matches(decoded@, config.username@, config.password@),
{
    let n = decoded.len();
    let mut k: usize = 0;
    while k < n && decoded[k] != 58
        invariant
            0 <= k <= n,
            n == decoded@.len(),
            forall|j: int| 0 <= j < k ==> decoded@[j] != 58,
        decreases n - k,
    {
        k += 1;
    }
    proof {
        lemma_colon_split_is(decoded@, k as int);
        assert(decoded@.take(k as int) =~= decoded@.subrange(0, k as int));
    }
    let user_ok = range_matches(decoded, 0, k, config.username.as_str().as_bytes());
    let pass_ok = if k < n {
        proof {
            assert(decoded@.skip(k + 1) =~= decoded@.subrange(k + 1, n as int));
        }
        range_matches(decoded, k + 1, n, config.password.as_str().as_bytes())
    } else {
        let pw = config.password.as_str().as_bytes();
        proof {
            if pw@.len() == 0 {
                assert(Seq::<u8>::empty() =~= pw@);
            }
        }
        pw.len() == 0
    };
    user_ok && pass_ok
}

/// Whether `s`, from position `i` on, starts with `pat`.
fn matches_at(s: &str, i: usize, pat: &str) -> (r: bool)
    requires
        i <= s@.len(),
    ensures
        r == (s@.len() - i >= pat@.len() && s@.skip(i as int).take(pat@.len() as int) == pat@),
{
    let m = pat.unicode_len();
    let n = s.unicode_len();
    if n - i < m {
        return false;
    }
    let mut j: usize = 0;
    while j < m
        invariant
            0 <= j <= m,
            m == pat@.len(),
            i + m <= n == s@.len(),
            forall|t: int| 0 <= t < j ==> s@[i + t] == pat@[t],
        decreases m - j,
    {
        if s.get_char(i + j) != pat.get_char(j) {
            proof {
                assert(s@.skip(i as int).take(m as int)[j as int] != pat@[j as int]);
            }
            return false;
        }
        j += 1;
    }
    proof {
        assert(s@.skip(i as int).take(m as int) =~= pat@);
    }
    true
}

/// The header payload with every leading `Basic ` scheme prefix removed,
/// as trimming the prefix from the start does.
pub open spec fn strip_basic(h: Seq<char>) -> Seq<char>
    decreases h.len(),
{
    if h.len() >= 6 && h.take(6) == "Basic "@ {
        strip_basic(h.skip(6))
    } else {
        h
    }
}

/// Whether an `Authorization` header value grants access: it must carry
/// the `Basic ` scheme, and what follows the scheme prefix must decode as
/// base64 to a matching `username:password` pair.
pub open spec fn header_grants(h: Seq<char>, username: Seq<char>, password: Seq<char>) -> bool {
    &&& h.len() >= 6
    &&& h.take(6) == "Basic "@
    &&& match base64_decode_of(strip_basic(h)) {
        Some(d) => decoded_matches(d, username, password),
        None => false,
    }
}

/// Checks an `Authorization` header value, if one arrived, against the
/// configured credentials.  A missing header, another scheme, malformed
/// base64, or a non-matching pair all refuse access.
pub fn validate_basic_header(header: Option<&str>, config: &Config) -> (r: bool)
    ensures
        r == match header {
            Some(h) => header_grants(h@, config.username@, config.password@),
            None => false,
        },
{
    let h = match header {
        Some(h) => h,
        None => {
            return false;
        },
    };
    let n = h.unicode_len();
    proof {
        reveal_strlit("Basic ");
        assert(h@.skip(0) =~= h@);
    }
    if !matches_at(h, 0, "Basic ") {
        return false;
    }
    let mut i: usize = 0;
    while matches_at(h, i, "Basic ")
        invariant
            0 <= i <= n,
            n == h@.len(),
            strip_basic(h@.skip(i as int)) == strip_basic(h@),
        decreases n - i,
    {
        proof {
            reveal_strlit("Basic ");
            assert(h@.skip(i as int).skip(6) =~= h@.skip(i + 6));
        }
        i += 6;
    }
    proof {
        reveal_strlit("Basic ");
        assert(strip_basic(h@.skip(i as int)) == h@.skip(i as int));
    }
    let token = h.substring_char(i, n);
    proof {
        assert(token@ =~= h@.skip(i as int));
    }
    match decode_base64(token) {
        Some(decoded) => credentials_match(&decoded, config),
        None => false,
    }
}

/// Index of the first `&` in the query, or its length if there is none.
pub open spec fn amp_split(q: Seq<char>) -> int
    decreases q.len(),
{
    if q.len() == 0 {
        0
    } else if q[0] == '&' {
        0
    } else {
        1 + amp_split(q.skip(1))
    }
}

/// The split position lies within the query.
proof fn lemma_amp_split_bounds(q: Seq<char>)
    ensures
        0 <= amp_split(q) <= q.len(),
    decreases q.len(),
{
    if q.len() > 0 && q[0] != '&' {
        lemma_amp_split_bounds(q.skip(1));
    }
}

/// A scan that saw no `&` before `i`, and one at `i` unless it ran off the
/// end, has found the first separator.
proof fn lemma_amp_split_is(q: Seq<char>, i: int)
    requires
        0 <= i <= q.len(),
        forall|j: int| 0 <= j < i ==> q[j] != '&',
        i < q.len() ==> q[i] == '&',
    ensures
        amp_split(q) == i,
    decreases i,
{
    if i == 0 {
        if q.len() > 0 && q[0] != '&' {
            assert(false);
        }
    } else {
        assert(q[0] != '&');
        let t = q.skip(1);
        assert forall|j: int| 0 <= j < i - 1 implies t[j] != '&' by {
            assert(t[j] == q[j + 1]);
        }
        assert(i - 1 < t.len() ==> t[i - 1] == q[i]);
        lemma_amp_split_is(t, i - 1);
    }
}

/// Whether a socket-upgrade query string grants access.  The parameters
/// are scanned left to right; the first `auth=` parameter whose value is
/// valid base64 decides, a parameter whose value fails to decode is passed
/// over, and with no deciding parameter access is refused.
pub open spec fn ws_query_grants(q: Seq<char>, username: Seq<char>, password: Seq<char>) -> bool
    decreases q.len(),
    via ws_query_grants_decreases
{
    let k = amp_split(q);
    let param = q.take(k);
    if param.len() >= 5 && param.take(5) == "auth="@ && base64_decode_of(param.skip(5)) is Some {
        decoded_matches(base64_decode_of(param.skip(5)).unwrap(), username, password)
    } else if k < q.len() {
        ws_query_grants(q.skip(k + 1), username, password)
    } else {
        false
    }
}

#[via_fn]
proof fn ws_query_grants_decreases(q: Seq<char>, username: Seq<char>, password: Seq<char>) {
    lemma_amp_split_bounds(q);
}

/// One scanning step: handles the parameter starting at `start` and leaves
/// the rest of the query to recursion.
fn scan_query(q: &str, start: usize, config: &Config) -> (r: bool)
    requires
        start <= q@.len(),
    ensures
        r == ws_query_grants(q@.skip(start as int), config.username@, config.password@),
    decreases q@.len() - start,
{
    let n = q.unicode_len();
    let ghost seg = q@.skip(start as int);
    let mut k: usize = start;
    while k < n && q.get_char(k) != '&'
        invariant
            start <= k <= n,
            n == q@.len(),
            forall|t: int| start <= t < k ==> q@[t] != '&',
        decreases n - k,
    {
        k += 1;
    }
    proof {
        assert forall|j: int| 0 <= j < k - start implies seg[j] != '&' by {
            assert(seg[j] == q@[j + start]);
        }
        assert(k < n ==> seg[k - start] == q@[k as int]);
        lemma_amp_split_is(seg, k - start);
        assert(seg.take(k - start) =~= q@.subrange(start as int, k as int));
    }
    if matches_at(q, start, "auth=") && k - start >= 5 {
        proof {
            reveal_strlit("auth=");
            assert(seg.take(k - start).take(5) =~= q@.skip(start as int).take(5));
        }
        let value = q.substring_char(start + 5, k);
        proof {
            assert(value@ =~= seg.take(k - start).skip(5));
        }
        if let Some(decoded) = decode_base64(value) {
            return credentials_match(&decoded, config);
        }
    } else {
        proof {
            reveal_strlit("auth=");
            let param = seg.take(k - start);
            if param.len() >= 5 && param.take(5) == "auth="@ {
                assert(q@.skip(start as int).take(5) =~= param.take(5));
            }
        }
    }
    if k < n {
        proof {
            assert(seg.skip(k - start + 1) =~= q@.skip(k + 1));
        }
        scan_query(q, k + 1, config)
    } else {
        false
    }
}

/// The two gates agree: for any token made of base64 symbols, an
/// `Authorization` header carrying `Basic <token>` grants access exactly
/// when a socket-upgrade query carrying `auth=<token>` does — a matching
/// pair passes both checks, and a non-matching or malformed token fails
/// both.
pub proof fn lemma_auth_paths_agree(token: Seq<char>, username: Seq<char>, password: Seq<char>)
    requires
        forall|i: int| 0 <= i < token.len() ==> is_base64_symbol(#[trigger] token[i]),
    ensures
        header_grants("Basic "@ + token, username, password) == ws_query_grants(
            "auth="@ + token,
            username,
            password,
        ),
{
    reveal_strlit("Basic ");
    reveal_strlit("auth=");
    let h = "Basic "@ + token;
    assert(h.take(6) =~= "Basic "@);
    assert(h.skip(6) =~= token);
    assert(strip_basic(h) == strip_basic(token));
    if token.len() >= 6 && token.take(6) == "Basic "@ {
        assert(token[5] == token.take(6)[5]);
        assert(token[5] == ' ');
        assert(!is_base64_symbol(' '));
        assert(false);
    }
    assert(strip_basic(token) == token);
    let q = "auth="@ + token;
    assert forall|j: int| 0 <= j < q.len() implies q[j] != '&' by {
        if j < 5 {
            assert(q[j] == "auth="@[j]);
        } else {
            assert(q[j] == token[j - 5]);
            assert(is_base64_symbol(token[j - 5]));
        }
    }
    lemma_amp_split_is(q, q.len() as int);
    let param = q.take(amp_split(q));
    assert(param =~= q);
    assert(param.take(5) =~= "auth="@);
    assert(param.skip(5) =~= token);
    assert(base64_decode_of(param.skip(5)) == base64_decode_of(token));
}

/// Checks the socket-upgrade query string, if one arrived, against the
/// configured credentials, as the upgrade handler must before any
/// pseudo-terminal is allocated.
pub fn validate_ws_auth(query: Option<&str>, config: &Config) -> (r: bool)
    ensures
        r == match query {
            Some(q) => ws_query_grants(q@, config.username@, config.password@),
            None => false,
        },
{
    match query {
        Some(q) => {
            proof {
                assert(q@.skip(0) =~= q@);
            }
            scan_query(q, 0, config)
        },
        None => false,
    }
}

} // verus!
