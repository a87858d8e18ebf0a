//! The RFC 5988 subset needed for `Link`-header pagination.
//!
//! The registry announces a continuation URI in a `Link` response header,
//! `<URI>; rel="next"`. Only the first `;`-delimited segment is consulted:
//! it is trimmed of surrounding white space and must be wrapped in angle
//! brackets; the URI is whatever stands between them. Any other shape means
//! "no continuation", not an error. Header bytes that do not read as text
//! are a header-decoding error.

use vstd::prelude::*;

use crate::ascii::ascii_chars;
use crate::ascii::check_visible_ascii;
use crate::ascii::is_visible_ascii;
use crate::ascii::is_visible_ascii_byte;
use crate::ascii::string_from_ascii;
use crate::error::ApiError;

verus! {

/// Linear white space inside a header value: space or tab.
pub open spec fn is_lws(b: u8) -> bool {
    b == 32 || b == 9
}

/// Length of the prefix of `s` that stands before the first `;`
/// (all of `s` when there is none).
pub open spec fn seg_len(s: Seq<u8>) -> int
    decreases s.len(),
{
    if s.len() == 0 {
        0
    } else if s[0] == 59 {
        0
    } else {
        1 + seg_len(s.skip(1))
    }
}

proof fn lemma_seg_len_scan(s: Seq<u8>, i: int)
    requires
        0 <= i <= s.len(),
        forall|j: int| 0 <= j < i ==> s[j] != 59,
        i == s.len() || s[i] == 59,
    ensures
        seg_len(s) == i,
    decreases i,
{
    if i > 0 {
        lemma_seg_len_scan(s.skip(1), i - 1);
    }
}

/// Number of leading white-space bytes.
pub open spec fn lws_prefix_len(s: Seq<u8>) -> int
    decreases s.len(),
{
    if s.len() == 0 {
        0
    } else if is_lws(s[0]) {
        1 + lws_prefix_len(s.skip(1))
    } else {
        0
    }
}

/// Number of trailing white-space bytes.
pub open spec fn lws_suffix_len(s: Seq<u8>) -> int
    decreases s.len(),
{
    if s.len() == 0 {
        0
    } else if is_lws(s.last()) {
        1 + lws_suffix_len(s.drop_last())
    } else {
        0
    }
}

/// `s` with surrounding white space removed, as `str::trim` does on
/// header text (whose only white-space characters are space and tab).
pub open spec fn trim_lws(s: Seq<u8>) -> Seq<u8> {
    let t = s.skip(lws_prefix_len(s));
    t.take(t.len() - lws_suffix_len(t))
}

/// The continuation URI of a raw `Link` header value, if it has one:
/// the first `;`-delimited segment, trimmed, with its angle brackets
/// removed; `None` for any other shape.
pub open spec fn link_target(s: Seq<u8>) -> Option<Seq<u8>> {
    let t = trim_lws(s.take(seg_len(s)));
    if t.len() >= 2 && t[0] == 60 && t[t.len() - 1] == 62 {
        Some(t.subrange(1, t.len() - 1))
    } else {
        None
    }
}

proof fn lemma_lws_prefix_scan(s: Seq<u8>, i: int)
    requires
        0 <= i <= s.len(),
        forall|j: int| 0 <= j < i ==> is_lws(#[trigger] s[j]),
        i == s.len() || !is_lws(s[i]),
    ensures
        lws_prefix_len(s) == i,
    decreases i,
{
    if i > 0 {
        lemma_lws_prefix_scan(s.skip(1), i - 1);
    }
}

proof fn lemma_lws_suffix_scan(s: Seq<u8>, i: int)
    requires
        0 <= i <= s.len(),
        forall|j: int| i <= j < s.len() ==> is_lws(#[trigger] s[j]),
        i == 0 || !is_lws(s[i - 1]),
    ensures
        lws_suffix_len(s) == s.len() - i,
    decreases s.len(),
{
    if i < s.len() {
        lemma_lws_suffix_scan(s.drop_last(), i);
    }
}

/// Given the raw bytes of a `Link` header value, if any, extract the
/// continuation URI announced in it.
///
/// An absent header or one without a well-formed `<URI>` in its first
/// segment yields `Ok(None)`: pagination simply stops. Bytes that do not
/// read as visible ASCII text are a header-decoding error.
pub fn parse_rfc5988(header_value: Option<&Vec<u8>>) -> (r: Result<Option<String>, ApiError>)
    ensures
        match header_value {
            None => r matches Ok(o) && o is None,
            Some(v) => {
                if !is_visible_ascii(v@) {
                    r matches Err(e) && e is ResponseHeaderParseError
                } else {
                    match link_target(v@) {
                        Some(t) => r matches Ok(o) && (o matches Some(p) && p@ == ascii_chars(t)),
                        None => r matches Ok(o) && o is None,
                    }
                }
            },
        },
{
    let v = match header_value {
        None => {
            return Ok(None);
        },
        Some(v) => v,
    };
    if !check_visible_ascii(v) {
        return Err(ApiError::ResponseHeaderParseError);
    }

    let n = v.len();
    let mut end: usize = 0;
    while end < n && v[end] != 59
        invariant
            0 <= end <= n == v@.len(),
            forall|j: int| 0 <= j < end ==> v@[j] != 59,
        decreases n - end,
    {
        end = end + 1;
    }
    proof {
        lemma_seg_len_scan(v@, end as int);
    }

    let mut lo: usize = 0;
    while lo < end && (v[lo] == 32 || v[lo] == 9)
        invariant
            0 <= lo <= end <= v@.len(),
            forall|j: int| 0 <= j < lo ==> is_lws(#[trigger] v@[j]),
        decreases end - lo,
    {
        lo = lo + 1;
    }
    let mut hi: usize = end;
    while hi > lo && (v[hi - 1] == 32 || v[hi - 1] == 9)
        invariant
            lo <= hi <= end <= v@.len(),
            forall|j: int| hi <= j < end ==> is_lws(#[trigger] v@[j]),
        decreases hi,
    {
        hi = hi - 1;
    }

    proof {
        let seg = v@.take(seg_len(v@));
        assert(forall|j: int| 0 <= j < end ==> seg[j] == v@[j]);
        if lo < end {
            lemma_lws_prefix_scan(seg, lo as int);
            let t = seg.skip(lo as int);
            lemma_lws_suffix_scan(t, hi - lo);
            assert(trim_lws(seg) =~= v@.subrange(lo as int, hi as int));
        } else {
            lemma_lws_prefix_scan(seg, end as int);
            let t = seg.skip(end as int);
            lemma_lws_suffix_scan(t, 0);
            assert(trim_lws(seg) =~= v@.subrange(lo as int, hi as int));
        }
    }

    if hi - lo >= 2 && v[lo] == 60 && v[hi - 1] == 62 {
        let mut out: Vec<u8> = Vec::new();
        let mut k: usize = lo + 1;
        while k < hi - 1
            invariant
                lo + 1 <= k <= hi - 1,
                hi <= v@.len(),
                out@ =~= v@.subrange(lo + 1, k as int),
            decreases hi - k,
        {
            out.push(v[k]);
            k = k + 1;
        }
        proof {
            assert(out@ =~= link_target(v@)->Some_0);
            assert(forall|i: int|
                0 <= i < out@.len() ==> is_visible_ascii_byte(#[trigger] out@[i]));
        }
        Ok(Some(string_from_ascii(out)))
    } else {
        proof {
            assert(link_target(v@) is None);
        }
        Ok(None)
    }
}

} // verus!
