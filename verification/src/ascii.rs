//! Bytes of HTTP header values, and their reading as text.
//!
//! Header values arrive as raw bytes. The registry protocol only ever
//! compares and copies them as text, which is possible exactly when every
//! byte is visible ASCII (or a tab); anything else is a header-decoding
//! error. This module holds that notion and the conversion of such bytes
//! into `String`s, together with a decimal rendering of status codes.

use vstd::prelude::*;

verus! {

/// A byte that reads as text in a header value: visible ASCII or tab.
pub open spec fn is_visible_ascii_byte(b: u8) -> bool {
    b == 9 || (32 <= b && b < 127)
}

/// All bytes of the sequence read as text.
pub open spec fn is_visible_ascii(s: Seq<u8>) -> bool {
    forall|i: int| 0 <= i < s.len() ==> is_visible_ascii_byte(#[trigger] s[i])
}

/// The characters spelled by a sequence of ASCII bytes, one per byte.
pub open spec fn ascii_chars(s: Seq<u8>) -> Seq<char> {
    s.map_values(|b: u8| b as char)
}

/// Whether every byte of a header value reads as text.
pub fn check_visible_ascii(s: &Vec<u8>) -> (r: bool)
    ensures
        r == is_visible_ascii(s@),
{
    let mut i: usize = 0;
    while i < s.len()
        invariant
            i <= s@.len(),
            forall|j: int| 0 <= j < i ==> is_visible_ascii_byte(#[trigger] s@[j]),
        decreases s@.len() - i,
    {
        let b = s[i];
        if !(b == 9 || (32 <= b && b < 127)) {
            assert(!is_visible_ascii_byte(s@[i as int]));
            return false;
        }
        i = i + 1;
    }
    true
}

/// An owned copy of a byte vector.
pub fn copy_bytes(src: &Vec<u8>) -> (r: Vec<u8>)
    ensures
        r@ == src@,
{
    let mut out: Vec<u8> = Vec::new();
    let mut i: usize = 0;
    while i < src.len()
        invariant
            i <= src@.len(),
            out@ =~= src@.take(i as int),
        decreases src@.len() - i,
    {
        out.push(src[i]);
        i = i + 1;
    }
    proof {
        assert(out@ =~= src@);
    }
    out
}

/// Relies on `String::from_utf8`: ASCII bytes are valid UTF-8 and decode
/// to one character per byte.
#[verifier::external_body]
pub(crate) fn string_from_ascii(bytes: Vec<u8>) -> (r: String)
    requires
        forall|i: int| 0 <= i < bytes@.len() ==> #[trigger] bytes@[i] < 128,
    ensures
        r@ == ascii_chars(bytes@),
{
    match String::from_utf8(bytes) {
        Ok(s) => s,
        Err(_) => String::new(),
    }
}

/// The decimal digits of `n`, most significant first, as ASCII bytes.
pub open spec fn dec_bytes(n: int) -> Seq<u8>
    decreases n,
{
    if n < 10 {
        seq![(48 + if n < 0 { 0int } else { n }) as u8]
    } else {
        dec_bytes(n / 10).push((48 + n % 10) as u8)
    }
}

/// The decimal digits of `n` as characters.
pub open spec fn dec_chars(n: int) -> Seq<char> {
    ascii_chars(dec_bytes(n))
}

proof fn lemma_dec_bytes_visible(n: int)
    ensures
        is_visible_ascii(dec_bytes(n)),
        forall|i: int| 0 <= i < dec_bytes(n).len() ==> #[trigger] dec_bytes(n)[i] < 128,
    decreases n,
{
    if n >= 10 {
        lemma_dec_bytes_visible(n / 10);
    }
}

fn push_dec_bytes(n: u16, out: &mut Vec<u8>)
    ensures
        final(out)@ == old(out)@ + dec_bytes(n as int),
    decreases n,
{
    if n >= 10 {
        push_dec_bytes(n / 10, out);
    }
    out.push((n % 10) as u8 + 48);
    assert(out@ =~= old(out)@ + dec_bytes(n as int));
}

/// The decimal rendering of a status code.
pub fn u16_to_string(n: u16) -> (r: String)
    ensures
        r@ == dec_chars(n as int),
{
    let mut digits: Vec<u8> = Vec::new();
    push_dec_bytes(n, &mut digits);
    proof {
        lemma_dec_bytes_visible(n as int);
        assert(digits@ =~= dec_bytes(n as int));
    }
    string_from_ascii(digits)
}

} // verus!
