//! The inline resize sub-protocol: a text frame of the form
//! `resize:<cols>:<rows>` asks the bridge to change the pseudo-terminal's
//! dimensions.  A frame that carries the `resize:` prefix but not that exact
//! shape is dropped silently; it is never forwarded as keyboard input.

use vstd::prelude::*;
use vstd::string::StrSliceExecFns;
use crate::numbers::{parse_u16, parse_u16_spec};

verus! {

/// Index of the first `:` in `s`, or `s.len()` if there is none.
pub open spec fn first_colon(s: Seq<char>) -> int
    decreases s.len(),
{
    if s.len() == 0 {
        0
    } else if s[0] == ':' {
        0
    } else {
        1 + first_colon(s.skip(1))
    }
}

/// A scan that saw no `:` before `i`, and one at `i` unless it ran off the
/// end, has found the first colon.
proof fn lemma_first_colon_is(s: Seq<char>, i: int)
    requires
        0 <= i <= s.len(),
        forall|j: int| 0 <= j < i ==> s[j] != ':',
        i < s.len() ==> s[i] == ':',
    ensures
        first_colon(s) == i,
    decreases i,
{
    if i == 0 {
        if s.len() > 0 && s[0] != ':' {
            assert(false);
        }
    } else {
        assert(s[0] != ':');
        let t = s.skip(1);
        assert forall|j: int| 0 <= j < i - 1 implies t[j] != ':' by {
            assert(t[j] == s[j + 1]);
        }
        assert(i - 1 < t.len() ==> t[i - 1] == s[i]);
        lemma_first_colon_is(t, i - 1);
    }
}

/// The frame starts with the literal resize command prefix.
pub open spec fn is_resize_prefixed(s: Seq<char>) -> bool {
    s.len() >= 7 && s.take(7) == "resize:"@
}

/// What the resize sub-protocol makes of a text frame: columns and rows iff
/// the frame is `resize:<cols>:<rows>` — the remainder after the prefix
/// splits on `:` into exactly two fields, each a 16-bit decimal count.
/// Anything else, including a well-prefixed but malformed frame, is no
/// resize request.
pub open spec fn resize_request(s: Seq<char>) -> Option<(u16, u16)> {
    if is_resize_prefixed(s) {
        let rest = s.skip(7);
        let k = first_colon(rest);
        if k < rest.len() && first_colon(rest.skip(k + 1)) == rest.len() - k - 1 {
            match (parse_u16_spec(rest.take(k)), parse_u16_spec(rest.skip(k + 1))) {
                (Some(cols), Some(rows)) => Some((cols, rows)),
                _ => None,
            }
        } else {
            None
        }
    } else {
        None
    }
}

/// Whether a text frame carries the resize command prefix; only such frames
/// belong to the control sub-protocol, everything else is terminal input.
pub fn is_resize_command(text: &str) -> (r: bool)
    ensures
        r == is_resize_prefixed(text@),
{
    let n = text.unicode_len();
    let p: &str = "resize:";
    proof {
        reveal_strlit("resize:");
    }
    if n < 7 {
        return false;
    }
    let mut j: usize = 0;
    while j < 7
        invariant
            0 <= j <= 7,
            7 <= n == text@.len(),
            p@ == "resize:"@,
            p@.len() == 7,
            forall|t: int| 0 <= t < j ==> text@[t] == p@[t],
        decreases 7 - j,
    {
        if text.get_char(j) != p.get_char(j) {
            proof {
                assert(text@.take(7)[j as int] != "resize:"@[j as int]);
            }
            return false;
        }
        j += 1;
    }
    proof {
        assert(text@.take(7) =~= "resize:"@);
    }
    true
}

/// Parses a text frame against the resize sub-protocol, yielding the
/// requested column and row counts exactly when the frame has the shape
/// `resize:<cols>:<rows>`.
pub fn parse_resize(text: &str) -> (r: Option<(u16, u16)>)
    ensures
        r == resize_request(text@),
{
    if !is_resize_command(text) {
        return None;
    }
    let n = text.unicode_len();
    let ghost rest = text@.skip(7);
    let mut k: usize = 7;
    while k < n && text.get_char(k) != ':'
        invariant
            7 <= k <= n,
            n == text@.len(),
            forall|t: int| 7 <= t < k ==> text@[t] != ':',
        decreases n - k,
    {
        k += 1;
    }
    proof {
        assert forall|j: int| 0 <= j < k - 7 implies rest[j] != ':' by {
            assert(rest[j] == text@[j + 7]);
        }
        assert(k < n ==> rest[k - 7] == text@[k as int]);
        lemma_first_colon_is(rest, k - 7);
    }
    if k == n {
        return None;
    }
    let mut m: usize = k + 1;
    while m < n && text.get_char(m) != ':'
        invariant
            k + 1 <= m <= n,
            k < n == text@.len(),
            forall|t: int| k + 1 <= t < m ==> text@[t] != ':',
        decreases n - m,
    {
        m += 1;
    }
    let ghost tail = rest.skip(k - 7 + 1);
    proof {
        assert(tail =~= text@.skip(k + 1));
        assert forall|j: int| 0 <= j < m - k - 1 implies tail[j] != ':' by {
            assert(tail[j] == text@[j + k + 1]);
        }
        assert(m < n ==> tail[m - k - 1] == text@[m as int]);
        lemma_first_colon_is(tail, m - k - 1);
    }
    if m < n {
        proof {
            assert(first_colon(tail) < rest.len() - (k - 7) - 1);
        }
        return None;
    }
    let cols_text = text.substring_char(7, k);
    let rows_text = text.substring_char(k + 1, n);
    proof {
        assert(cols_text@ =~= rest.take(k - 7));
        assert(rows_text@ =~= rest.skip(k - 7 + 1));
    }
    match (parse_u16(cols_text), parse_u16(rows_text)) {
        (Some(cols), Some(rows)) => Some((cols, rows)),
        _ => None,
    }
}

} // verus!
