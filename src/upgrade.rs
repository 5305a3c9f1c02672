//! Detection of a WebSocket upgrade request from its headers.
use vstd::prelude::*;
use vstd::string::StringSliceAdditionalSpecFns;
use vstd::utf8::encode_utf8;
use crate::scope::RequestHead;

verus! {

/// The ASCII lower case of a byte; other bytes are unchanged.
pub open spec fn lower(b: u8) -> u8 {
    if 65 <= b <= 90 {
        (b + 32) as u8
    } else {
        b
    }
}

/// Whether `a` and `b` are equal once ASCII letters are lowered.
pub open spec fn eq_ignore_case(a: Seq<u8>, b: Seq<u8>) -> bool {
    a.len() == b.len() && forall|i: int| 0 <= i < a.len() ==> lower(#[trigger] a[i]) == lower(b[i])
}

/// ASCII whitespace: space, tab, line feed, form feed, carriage return.
pub open spec fn is_space(b: u8) -> bool {
    b == 32 || b == 9 || b == 10 || b == 12 || b == 13
}

/// `s` without its leading whitespace.
pub open spec fn trim_start(s: Seq<u8>) -> Seq<u8>
    decreases s.len(),
{
    if s.len() > 0 && is_space(s[0]) {
        trim_start(s.drop_first())
    } else {
        s
    }
}

/// `s` without its trailing whitespace.
pub open spec fn trim_end(s: Seq<u8>) -> Seq<u8>
    decreases s.len(),
{
    if s.len() > 0 && is_space(s.last()) {
        trim_end(s.drop_last())
    } else {
        s
    }
}

/// Whether `[lo, hi)` is one of the comma-separated items of `v`.
pub open spec fn is_item(v: Seq<u8>, lo: int, hi: int) -> bool {
    &&& 0 <= lo <= hi <= v.len()
    &&& (lo == 0 || v[lo - 1] == 44)
    &&& (hi == v.len() || v[hi] == 44)
    &&& forall|k: int| lo <= k < hi ==> v[k] != 44
}

/// Whether some comma-separated item of `v`, trimmed of whitespace, equals
/// `token` ignoring ASCII case.
pub open spec fn has_token(v: Seq<u8>, token: Seq<u8>) -> bool {
    exists|lo: int, hi: int|
        is_item(v, lo, hi) && eq_ignore_case(
            trim_end(trim_start(#[trigger] v.subrange(lo, hi))),
            token,
        )
}

/// Whether some header of `headers` is named `name` (ignoring ASCII case)
/// and has `token` among the items of its value.
pub open spec fn header_has_token(headers: Seq<(String, Vec<u8>)>, name: Seq<u8>, token: Seq<u8>) -> bool {
    exists|i: int|
        0 <= i < headers.len() && eq_ignore_case(encode_utf8((#[trigger] headers[i]).0@), name)
            && has_token(headers[i].1@, token)
}

/// Whether a request asks for a WebSocket upgrade: a `connection` header
/// names `upgrade`, and an `upgrade` header names `websocket`.
pub open spec fn upgrade_requested(headers: Seq<(String, Vec<u8>)>) -> bool {
    header_has_token(headers, "connection".spec_bytes(), "upgrade".spec_bytes())
        && header_has_token(headers, "upgrade".spec_bytes(), "websocket".spec_bytes())
}

fn lower_byte(b: u8) -> (r: u8)
    ensures
        r == lower(b),
{
    if 65 <= b && b <= 90 {
        b + 32
    } else {
        b
    }
}

fn space_byte(b: u8) -> (r: bool)
    ensures
        r == is_space(b),
{
    b == 32 || b == 9 || b == 10 || b == 12 || b == 13
}

/// Compares `v[lo..hi]` with `t`, ignoring ASCII case.
fn range_eq_ignore_case(v: &[u8], lo: usize, hi: usize, t: &[u8]) -> (r: bool)
    requires
        lo <= hi <= v@.len(),
    ensures
        r == eq_ignore_case(v@.subrange(lo as int, hi as int), t@),
{
    if hi - lo != t.len() {
        return false;
    }
    let mut i: usize = 0;
    while i < t.len()
        invariant
            lo <= hi <= v@.len(),
            hi - lo == t@.len(),
            i <= t@.len(),
            forall|k: int| 0 <= k < i ==> lower(v@[lo + k]) == lower(t@[k]),
        decreases t@.len() - i,
    {
        if lower_byte(v[lo + i]) != lower_byte(t[i]) {
            assert(lower(v@.subrange(lo as int, hi as int)[i as int]) != lower(t@[i as int]));
            return false;
        }
        i = i + 1;
    }
    true
}

proof fn lemma_trim_start_step(v: Seq<u8>, a: int, hi: int)
    requires
        0 <= a < hi <= v.len(),
        is_space(v[a]),
    ensures
        trim_start(v.subrange(a, hi)) == trim_start(v.subrange(a + 1, hi)),
{
    assert(v.subrange(a, hi).drop_first() =~= v.subrange(a + 1, hi));
}

proof fn lemma_trim_end_step(v: Seq<u8>, a: int, b: int)
    requires
        0 <= a < b <= v.len(),
        is_space(v[b - 1]),
    ensures
        trim_end(v.subrange(a, b)) == trim_end(v.subrange(a, b - 1)),
{
    assert(v.subrange(a, b).drop_last() =~= v.subrange(a, b - 1));
}

/// Whether the item `v[lo..hi]`, trimmed, equals `t` ignoring ASCII case.
fn item_matches(v: &[u8], lo: usize, hi: usize, t: &[u8]) -> (r: bool)
    requires
        lo <= hi <= v@.len(),
    ensures
        r == eq_ignore_case(trim_end(trim_start(v@.subrange(lo as int, hi as int))), t@),
{
    let mut a: usize = lo;
    while a < hi && space_byte(v[a])
        invariant
            lo <= a <= hi <= v@.len(),
            trim_start(v@.subrange(lo as int, hi as int)) == trim_start(v@.subrange(a as int, hi as int)),
        decreases hi - a,
    {
        proof {
            lemma_trim_start_step(v@, a as int, hi as int);
        }
        a = a + 1;
    }
    assert(trim_start(v@.subrange(a as int, hi as int)) == v@.subrange(a as int, hi as int));
    let mut b: usize = hi;
    while b > a && space_byte(v[b - 1])
        invariant
            a <= b <= hi <= v@.len(),
            trim_end(v@.subrange(a as int, hi as int)) == trim_end(v@.subrange(a as int, b as int)),
        decreases b - a,
    {
        proof {
            lemma_trim_end_step(v@, a as int, b as int);
        }
        b = b - 1;
    }
    assert(trim_end(v@.subrange(a as int, b as int)) == v@.subrange(a as int, b as int)) by {
        if b > a {
            assert(v@.subrange(a as int, b as int).last() == v@[b - 1]);
        }
    }
    range_eq_ignore_case(v, a, b, t)
}

/// Whether some comma-separated item of `v`, trimmed of ASCII whitespace,
/// equals `token` ignoring ASCII case.
pub fn contains_token(v: &[u8], token: &[u8]) -> (r: bool)
    ensures
        r == has_token(v@, token@),
{
    let mut start: usize = 0;
    let mut i: usize = 0;
    while i < v.len()
        invariant
            start <= i <= v@.len(),
            start == 0 || v@[start - 1] == 44,
            forall|k: int| start <= k < i ==> v@[k] != 44,
            forall|lo: int, hi: int|
                is_item(v@, lo, hi) && lo < start ==> !eq_ignore_case(
                    trim_end(trim_start(#[trigger] v@.subrange(lo, hi))),
                    token@,
                ),
        decreases v@.len() - i,
    {
        if v[i] == 44 {
            if item_matches(v, start, i, token) {
                assert(is_item(v@, start as int, i as int));
                return true;
            }
            assert forall|lo: int, hi: int|
                is_item(v@, lo, hi) && lo < i + 1 implies !eq_ignore_case(
                trim_end(trim_start(#[trigger] v@.subrange(lo, hi))),
                token@,
            ) by {
                if lo >= start {
                    if lo > start {
                        assert(v@[lo - 1] != 44);
                    }
                    if hi > i {
                        assert(v@[i as int] == 44);
                    }
                    if hi < i {
                        assert(v@[hi] != 44);
                    }
                }
            }
            start = i + 1;
        }
        i = i + 1;
    }
    if item_matches(v, start, i, token) {
        assert(is_item(v@, start as int, i as int));
        return true;
    }
    assert forall|lo: int, hi: int| is_item(v@, lo, hi) implies !eq_ignore_case(
        trim_end(trim_start(#[trigger] v@.subrange(lo, hi))),
        token@,
    ) by {
        if lo >= start {
            if lo > start {
                assert(v@[lo - 1] != 44);
            }
            if hi < i {
                assert(v@[hi] != 44);
            }
        }
    }
    false
}

/// Whether some header of `headers` is named `name` (ignoring ASCII case)
/// and has `token` among the items of its value.
fn headers_have_token(headers: &Vec<(String, Vec<u8>)>, name: &[u8], token: &[u8]) -> (r: bool)
    ensures
        r == header_has_token(headers@, name@, token@),
{
    let mut i: usize = 0;
    while i < headers.len()
        invariant
            i <= headers@.len(),
            forall|j: int|
                0 <= j < i ==> !(eq_ignore_case(encode_utf8((#[trigger] headers@[j]).0@), name@)
                    && has_token(headers@[j].1@, token@)),
        decreases headers@.len() - i,
    {
        let h = &headers[i];
        let hn = h.0.as_str().as_bytes();
        let named = range_eq_ignore_case(hn, 0, hn.len(), name);
        assert(hn@.subrange(0, hn@.len() as int) =~= hn@);
        if named && contains_token(h.1.as_slice(), token) {
            return true;
        }
        i = i + 1;
    }
    false
}

/// Whether the request asks for a WebSocket upgrade: a `connection` header
/// has the item `upgrade`, and an `upgrade` header the item `websocket`,
/// both ignoring ASCII case.
pub fn is_upgrade_request(head: &RequestHead) -> (r: bool)
    ensures
        r == upgrade_requested(head.headers@),
{
    headers_have_token(&head.headers, "connection".as_bytes(), "upgrade".as_bytes())
        && headers_have_token(&head.headers, "upgrade".as_bytes(), "websocket".as_bytes())
}

} // verus!
