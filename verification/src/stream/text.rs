//! Which of the bytes received so far are text.
//!
//! A chunk may end in the middle of a character, and a stream may hold
//! bytes that are no UTF-8 at all. Only the longest front of the bytes that
//! is UTF-8 is framed; what lies behind it waits for more bytes.

use vstd::prelude::*;
use vstd::utf8::{
    is_char_boundary_iff_not_is_continuation_byte, partial_valid_partial_invalid_utf8,
    pop_first_scalar, valid_first_scalar, valid_utf8, valid_utf8_concat, valid_utf8_split,
};

verus! {

/// `k` is the length of the longest front of `s` that is UTF-8.
pub open spec fn is_text_len(s: Seq<u8>, k: int) -> bool {
    &&& 0 <= k <= s.len()
    &&& valid_utf8(s.subrange(0, k))
    &&& forall|j: int| k < j <= s.len() ==> !valid_utf8(#[trigger] s.subrange(0, j))
}

/// The length of the longest front of `s` that is UTF-8.
pub open spec fn text_len(s: Seq<u8>) -> int {
    choose|k: int| is_text_len(s, k)
}

/// The longest front of `s` that is UTF-8.
pub open spec fn text_front(s: Seq<u8>) -> Seq<u8> {
    s.subrange(0, text_len(s))
}

/// What lies behind the longest front of `s` that is UTF-8.
pub open spec fn text_rest(s: Seq<u8>) -> Seq<u8> {
    s.subrange(text_len(s), s.len() as int)
}

/// Some front of `s` no longer than `j` is the longest that is UTF-8,
/// where no longer one is.
proof fn lemma_text_len_from(s: Seq<u8>, j: int) -> (k: int)
    requires
        0 <= j <= s.len(),
        forall|i: int| j < i <= s.len() ==> !valid_utf8(#[trigger] s.subrange(0, i)),
    ensures
        is_text_len(s, k),
    decreases j,
{
    if valid_utf8(s.subrange(0, j)) {
        j
    } else {
        assert(j > 0) by {
            assert(s.subrange(0, 0).len() == 0);
        }
        lemma_text_len_from(s, j - 1)
    }
}

/// `text_len` is the one length that `is_text_len` admits.
pub proof fn lemma_text_len(s: Seq<u8>)
    ensures
        is_text_len(s, text_len(s)),
        forall|k: int| is_text_len(s, k) ==> k == text_len(s),
{
    let w = lemma_text_len_from(s, s.len() as int);
    assert(is_text_len(s, text_len(s)));
    assert forall|k: int| is_text_len(s, k) implies k == text_len(s) by {
        let n = text_len(s);
        if k < n {
            assert(!valid_utf8(s.subrange(0, n)));
        } else if n < k {
            assert(!valid_utf8(s.subrange(0, k)));
        }
    }
}

/// Bytes that are UTF-8 as a whole are their own longest front.
pub proof fn lemma_text_len_of_text(s: Seq<u8>)
    requires
        valid_utf8(s),
    ensures
        text_len(s) == s.len(),
{
    assert(s.subrange(0, s.len() as int) =~= s);
    assert(is_text_len(s, s.len() as int));
    lemma_text_len(s);
}

/// Cutting the input into chunks does not change which of its bytes are
/// text: the text of `a` followed by `b` is the text of `a`, then the text
/// of what `a` left over with `b` behind it, and what is left over agrees.
pub proof fn lemma_text_chunking(a: Seq<u8>, b: Seq<u8>)
    ensures
        text_len(a + b) == text_len(a) + text_len(text_rest(a) + b),
        text_front(a + b) == text_front(a) + text_front(text_rest(a) + b),
        text_rest(a + b) == text_rest(text_rest(a) + b),
{
    lemma_text_len(a);
    lemma_text_len(a + b);
    let k = text_len(a);
    let later = text_rest(a) + b;
    lemma_text_len(later);
    let m = text_len(later);
    let all = a + b;
    assert(all.subrange(0, k + m) =~= a.subrange(0, k) + later.subrange(0, m));
    valid_utf8_concat(a.subrange(0, k), later.subrange(0, m));
    assert forall|j: int| k + m < j <= all.len() implies !valid_utf8(
        #[trigger] all.subrange(0, j),
    ) by {
        let front = all.subrange(0, j);
        if valid_utf8(front) {
            assert(front.subrange(0, k) =~= a.subrange(0, k));
            assert(front.subrange(k, front.len() as int) =~= later.subrange(0, j - k));
            if !valid_utf8(later.subrange(0, j - k)) {
                partial_valid_partial_invalid_utf8(front, k);
            }
            assert(false);
        }
    }
    assert(is_text_len(all, k + m));
    assert(text_front(all) =~= text_front(a) + text_front(later));
    assert(text_rest(all) =~= text_rest(later));
}

/// A single byte below 128 is text.
pub proof fn lemma_ascii_byte_is_text(b: u8)
    requires
        b < 128,
    ensures
        valid_utf8(seq![b]),
{
    let s = seq![b];
    assert(s[0] == b);
    assert((b & 0x7f) as u32 <= 0x7f) by (bit_vector);
    assert(valid_first_scalar(s));
    assert(pop_first_scalar(s).len() == 0);
    reveal_with_fuel(valid_utf8, 2);
}

/// Text can be cut in front of a byte below 128 and behind it: such a byte
/// is a whole character, so every part is text again.
pub proof fn lemma_cut_at_ascii(s: Seq<u8>, i: int)
    requires
        valid_utf8(s),
        0 <= i < s.len(),
        s[i] < 128,
    ensures
        valid_utf8(s.subrange(0, i)),
        valid_utf8(s.subrange(i, s.len() as int)),
        valid_utf8(s.subrange(i + 1, s.len() as int)),
        valid_utf8(s.subrange(0, i + 1)),
{
    is_char_boundary_iff_not_is_continuation_byte(s, i);
    valid_utf8_split(s, i);
    let tail = s.subrange(i, s.len() as int);
    assert(tail[0] == s[i]);
    assert(pop_first_scalar(tail) =~= s.subrange(i + 1, s.len() as int));
    lemma_ascii_byte_is_text(s[i]);
    valid_utf8_concat(s.subrange(0, i), seq![s[i]]);
    assert(s.subrange(0, i + 1) =~= s.subrange(0, i) + seq![s[i]]);
}

/// A part of text that starts at the front or behind a byte below 128, and
/// that ends at the end or in front of such a byte, is text.
pub proof fn lemma_part_is_text(s: Seq<u8>, a: int, b: int)
    requires
        valid_utf8(s),
        0 <= a <= b <= s.len(),
        a == 0 || s[a - 1] < 128,
        b == s.len() || s[b] < 128,
    ensures
        valid_utf8(s.subrange(a, b)),
{
    let tail = s.subrange(a, s.len() as int);
    if a == 0 {
        assert(tail =~= s);
    } else {
        lemma_cut_at_ascii(s, a - 1);
    }
    if b == s.len() {
        assert(s.subrange(a, b) =~= tail);
    } else {
        assert(tail[b - a] == s[b]);
        lemma_cut_at_ascii(tail, b - a);
        assert(tail.subrange(0, b - a) =~= s.subrange(a, b));
    }
}

} // verus!
