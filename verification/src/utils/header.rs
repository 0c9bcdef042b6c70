use vstd::prelude::*;
use vstd::utf8::decode_utf8;

use crate::utils::text::{lemma_ascii_valid_utf8, utf8_to_string};

verus! {

/// A byte that a header value may hold to be read as text: visible ASCII or a tab.
pub open spec fn is_header_char(b: u8) -> bool {
    (32 <= b && b < 127) || b == 9
}

/// The header value reads as text (as `HeaderValue::to_str` accepts it).
pub open spec fn is_visible_ascii(h: Seq<u8>) -> bool {
    forall|i: int| 0 <= i < h.len() ==> is_header_char(#[trigger] h[i])
}

/// All bytes are ASCII.
pub open spec fn is_ascii_bytes(h: Seq<u8>) -> bool {
    forall|i: int| 0 <= i < h.len() ==> #[trigger] h[i] < 128
}

/// The bytes of "Bearer".
pub open spec fn bearer_upper() -> Seq<u8> {
    seq![66u8, 101u8, 97u8, 114u8, 101u8, 114u8]
}

/// The bytes of "bearer".
pub open spec fn bearer_lower() -> Seq<u8> {
    seq![98u8, 101u8, 97u8, 114u8, 101u8, 114u8]
}

/// The header value starts with "Bearer" or "bearer".
pub open spec fn is_bearer(h: Seq<u8>) -> bool {
    h.len() >= 6 && (h.take(6) == bearer_upper() || h.take(6) == bearer_lower())
}

/// ASCII whitespace, which is all the Unicode whitespace that ASCII text holds.
pub open spec fn is_ascii_space(b: u8) -> bool {
    b == 32 || (9 <= b && b <= 13)
}

/// The bytes without their leading whitespace.
pub open spec fn trim_start(h: Seq<u8>) -> Seq<u8>
    decreases h.len(),
{
    if h.len() > 0 && is_ascii_space(h[0]) {
        trim_start(h.drop_first())
    } else {
        h
    }
}

/// The bytes without their trailing whitespace.
pub open spec fn trim_end(h: Seq<u8>) -> Seq<u8>
    decreases h.len(),
{
    if h.len() > 0 && is_ascii_space(h.last()) {
        trim_end(h.drop_last())
    } else {
        h
    }
}

/// The bytes without leading and trailing whitespace (`str::trim` on ASCII text).
pub open spec fn trimmed(h: Seq<u8>) -> Seq<u8> {
    trim_end(trim_start(h))
}

/// Whether the header value reads as text.
pub fn is_header_text(h: &[u8]) -> (res: bool)
    ensures
        res == is_visible_ascii(h@),
{
    let mut i: usize = 0;
    while i < h.len()
        invariant
            i <= h@.len(),
            forall|j: int| 0 <= j < i ==> is_header_char(#[trigger] h@[j]),
        decreases h.len() - i,
    {
        let b = h[i];
        if !((32 <= b && b < 127) || b == 9) {
            return false;
        }
        i += 1;
    }
    true
}

/// Whether the header value starts with "Bearer" or "bearer".
pub fn has_bearer_prefix(h: &[u8]) -> (res: bool)
    ensures
        res == is_bearer(h@),
{
    if h.len() < 6 {
        return false;
    }
    let upper = h[0] == 66 && h[1] == 101 && h[2] == 97 && h[3] == 114 && h[4] == 101 && h[5] == 114;
    let lower = h[0] == 98 && h[1] == 101 && h[2] == 97 && h[3] == 114 && h[4] == 101 && h[5] == 114;
    proof {
        if upper {
            assert(h@.take(6) =~= bearer_upper());
        }
        if lower {
            assert(h@.take(6) =~= bearer_lower());
        }
        if h@.take(6) == bearer_upper() {
            assert(h@.take(6)[0] == h@[0]);
            assert(h@.take(6)[5] == h@[5]);
        }
        if h@.take(6) == bearer_lower() {
            assert(h@.take(6)[0] == h@[0]);
            assert(h@.take(6)[5] == h@[5]);
        }
    }
    upper || lower
}

/// The bytes of `h` from position `from` on.
pub fn bytes_from(h: &[u8], from: usize) -> (res: Vec<u8>)
    requires
        from <= h@.len(),
    ensures
        res@ == h@.skip(from as int),
        is_visible_ascii(h@) ==> is_ascii_bytes(res@),
{
    let mut res: Vec<u8> = Vec::new();
    let mut i = from;
    while i < h.len()
        invariant
            from <= i <= h@.len(),
            res@ == h@.subrange(from as int, i as int),
        decreases h.len() - i,
    {
        res.push(h[i]);
        i += 1;
        proof {
            assert(res@ =~= h@.subrange(from as int, i as int));
        }
    }
    proof {
        assert(h@.subrange(from as int, i as int) =~= h@.skip(from as int));
        if is_visible_ascii(h@) {
            assert forall|k: int| 0 <= k < res@.len() implies #[trigger] res@[k] < 128 by {
                assert(res@[k] == h@[from + k]);
            }
        }
    }
    res
}

proof fn lemma_trim_start_skip(h: Seq<u8>, i: int)
    requires
        0 <= i <= h.len(),
        forall|j: int| 0 <= j < i ==> is_ascii_space(#[trigger] h[j]),
    ensures
        trim_start(h) == trim_start(h.skip(i)),
    decreases i,
{
    if i > 0 {
        assert(h.drop_first().skip(i - 1) =~= h.skip(i));
        assert forall|j: int| 0 <= j < i - 1 implies is_ascii_space(#[trigger] h.drop_first()[j]) by {
            assert(h.drop_first()[j] == h[j + 1]);
        }
        lemma_trim_start_skip(h.drop_first(), i - 1);
    } else {
        assert(h.skip(0) =~= h);
    }
}

proof fn lemma_trim_end_take(h: Seq<u8>, k: int)
    requires
        0 <= k <= h.len(),
        forall|j: int| k <= j < h.len() ==> is_ascii_space(#[trigger] h[j]),
    ensures
        trim_end(h) == trim_end(h.take(k)),
    decreases h.len() - k,
{
    if k < h.len() {
        assert(h.drop_last().take(k) =~= h.take(k));
        assert forall|j: int| k <= j < h.len() - 1 implies is_ascii_space(#[trigger] h.drop_last()[j]) by {
            assert(h.drop_last()[j] == h[j]);
        }
        lemma_trim_end_take(h.drop_last(), k);
    } else {
        assert(h.take(k) =~= h);
    }
}

/// The bytes of `h` from position `from` on, without leading and trailing whitespace.
pub fn trim_from(h: &[u8], from: usize) -> (res: Vec<u8>)
    requires
        from <= h@.len(),
    ensures
        res@ == trimmed(h@.skip(from as int)),
        is_visible_ascii(h@) ==> is_ascii_bytes(res@),
{
    let ghost s = h@.skip(from as int);
    let mut start = from;
    while start < h.len() && (h[start] == 32 || (9 <= h[start] && h[start] <= 13))
        invariant
            from <= start <= h@.len(),
            s == h@.skip(from as int),
            forall|j: int| 0 <= j < start - from ==> is_ascii_space(#[trigger] s[j]),
        decreases h.len() - start,
    {
        start += 1;
    }
    proof {
        lemma_trim_start_skip(s, start - from);
        assert(s.skip(start - from) =~= h@.skip(start as int));
        let t = h@.skip(start as int);
        if t.len() > 0 {
            assert(t[0] == h@[start as int]);
        }
    }
    let ghost t = h@.skip(start as int);
    let mut end = h.len();
    while end > start && (h[end - 1] == 32 || (9 <= h[end - 1] && h[end - 1] <= 13))
        invariant
            start <= end <= h@.len(),
            t == h@.skip(start as int),
            forall|j: int| end - start <= j < t.len() ==> is_ascii_space(#[trigger] t[j]),
        decreases end - start,
    {
        end -= 1;
    }
    proof {
        lemma_trim_end_take(t, end - start);
        let u = t.take(end - start);
        if u.len() > 0 {
            assert(u.last() == h@[end - 1]);
        }
    }
    let mut res: Vec<u8> = Vec::new();
    let mut i = start;
    while i < end
        invariant
            start <= i <= end <= h@.len(),
            res@ == h@.subrange(start as int, i as int),
        decreases end - i,
    {
        res.push(h[i]);
        i += 1;
        proof {
            assert(res@ =~= h@.subrange(start as int, i as int));
        }
    }
    proof {
        assert(h@.subrange(start as int, end as int) =~= t.take(end - start));
        assert(trim_start(t) == t);
        let u = t.take(end - start);
        assert(trim_end(u) == u);
        if is_visible_ascii(h@) {
            assert forall|k: int| 0 <= k < res@.len() implies #[trigger] res@[k] < 128 by {
                assert(res@[k] == h@[start + k]);
            }
        }
    }
    res
}

/// The header value reads as text and starts with "Bearer" or "bearer".
pub open spec fn is_bearer_header(h: Seq<u8>) -> bool {
    is_visible_ascii(h) && is_bearer(h)
}

/// What follows the scheme of a bearer header value, as text.
pub fn bearer_token(h: &[u8]) -> (res: Option<String>)
    ensures
        res is Some <==> is_bearer_header(h@),
        res matches Some(t) ==> t@ == decode_utf8(h@.skip(6)),
{
    if is_header_text(h) && has_bearer_prefix(h) {
        let token_bytes = bytes_from(h, 6);
        proof {
            lemma_ascii_valid_utf8(token_bytes@);
        }
        utf8_to_string(token_bytes.as_slice())
    } else {
        None
    }
}

/// What follows the scheme of a bearer header value, trimmed, as text.
pub fn trimmed_bearer_token(h: &[u8]) -> (res: Option<String>)
    ensures
        res is Some <==> is_bearer_header(h@),
        res matches Some(t) ==> t@ == decode_utf8(trimmed(h@.skip(6))),
{
    if is_header_text(h) && has_bearer_prefix(h) {
        let token_bytes = trim_from(h, 6);
        proof {
            lemma_ascii_valid_utf8(token_bytes@);
        }
        utf8_to_string(token_bytes.as_slice())
    } else {
        None
    }
}

} // verus!
