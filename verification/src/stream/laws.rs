//! What holds of the framing whatever the bytes are.

use vstd::prelude::*;
use crate::stream::framing::{
    apply_line, block_len, bom, bom_len, empty_frame, first_line, fold_block, frames, is_break,
    is_line_len, is_name_len, line_len, name_len, remainder, scan, RawFrame, COLON, LF,
};

verus! {

/// Some count of leading bytes without a line break exists, from `i` on.
proof fn lemma_line_len_from(s: Seq<u8>, i: int) -> (k: int)
    requires
        0 <= i <= s.len(),
        forall|j: int| 0 <= j < i ==> !is_break(#[trigger] s[j]),
    ensures
        is_line_len(s, k),
    decreases s.len() - i,
{
    if i == s.len() || is_break(s[i]) {
        i
    } else {
        lemma_line_len_from(s, i + 1)
    }
}

/// `line_len` is the one count that `is_line_len` admits.
pub proof fn lemma_line_len(s: Seq<u8>)
    ensures
        is_line_len(s, line_len(s)),
        forall|k: int| is_line_len(s, k) ==> k == line_len(s),
{
    let w = lemma_line_len_from(s, 0);
    assert(is_line_len(s, line_len(s)));
    assert forall|k: int| is_line_len(s, k) implies k == line_len(s) by {
        let n = line_len(s);
        if k < n {
            assert(!is_break(s[k]));
        } else if n < k {
            assert(!is_break(s[n]));
        }
    }
}

/// Some count of leading bytes without a colon exists, from `i` on.
proof fn lemma_name_len_from(line: Seq<u8>, i: int) -> (k: int)
    requires
        0 <= i <= line.len(),
        forall|j: int| 0 <= j < i ==> #[trigger] line[j] != COLON,
    ensures
        is_name_len(line, k),
    decreases line.len() - i,
{
    if i == line.len() || line[i] == COLON {
        i
    } else {
        lemma_name_len_from(line, i + 1)
    }
}

/// `name_len` is the one count that `is_name_len` admits.
pub proof fn lemma_name_len(line: Seq<u8>)
    ensures
        is_name_len(line, name_len(line)),
        forall|k: int| is_name_len(line, k) ==> k == name_len(line),
{
    let w = lemma_name_len_from(line, 0);
    assert(is_name_len(line, name_len(line)));
    assert forall|k: int| is_name_len(line, k) implies k == name_len(line) by {
        let n = name_len(line);
        if k < n {
            assert(line[k] != COLON);
        } else if n < k {
            assert(line[n] != COLON);
        }
    }
}

/// A complete first line lies inside the sequence and is followed by a
/// terminator of one or two bytes.
pub proof fn lemma_first_line_bounds(s: Seq<u8>)
    ensures
        first_line(s) matches Some((content, total)) ==> 0 <= content < total <= s.len() && total
            <= content + 2 && content == line_len(s),
{
    lemma_line_len(s);
}

/// Bytes that arrive later do not change a line that is complete.
pub proof fn lemma_first_line_stable(s: Seq<u8>, more: Seq<u8>)
    requires
        first_line(s) is Some,
    ensures
        first_line(s + more) == first_line(s),
{
    lemma_line_len(s);
    lemma_line_len(s + more);
    let k = line_len(s);
    let t = s + more;
    assert(is_line_len(t, k)) by {
        assert forall|j: int| 0 <= j < k implies !is_break(#[trigger] t[j]) by {
            assert(t[j] == s[j]);
        }
        assert(t[k] == s[k]);
    }
    assert(line_len(t) == k);
    assert(t[k] == s[k]);
    if s[k] != LF {
        assert(t[k + 1] == s[k + 1]);
    }
}

/// A complete block is not empty and lies inside the sequence.
pub proof fn lemma_block_len_bounds(s: Seq<u8>)
    ensures
        block_len(s) matches Some(n) ==> 0 < n <= s.len(),
    decreases s.len(),
{
    lemma_first_line_bounds(s);
    match first_line(s) {
        None => {},
        Some((content, total)) => {
            if content != 0 {
                lemma_block_len_bounds(s.skip(total));
            }
        },
    }
}

/// Bytes that arrive later do not move the end of a block that is complete.
pub proof fn lemma_block_len_stable(s: Seq<u8>, more: Seq<u8>)
    requires
        block_len(s) is Some,
    ensures
        block_len(s + more) == block_len(s),
    decreases s.len(),
{
    lemma_first_line_bounds(s);
    lemma_first_line_stable(s, more);
    match first_line(s) {
        None => {},
        Some((content, total)) => {
            if content != 0 {
                assert((s + more).skip(total) =~= s.skip(total) + more);
                lemma_block_len_stable(s.skip(total), more);
            }
        },
    }
}

/// Bytes that arrive later do not change what a complete block holds.
pub proof fn lemma_fold_block_stable(s: Seq<u8>, more: Seq<u8>, acc: RawFrame)
    requires
        block_len(s) is Some,
    ensures
        fold_block(s + more, acc) == fold_block(s, acc),
    decreases s.len(),
{
    lemma_first_line_bounds(s);
    lemma_first_line_stable(s, more);
    match first_line(s) {
        None => {},
        Some((content, total)) => {
            if content != 0 {
                assert((s + more).skip(total) =~= s.skip(total) + more);
                assert((s + more).subrange(0, content) =~= s.subrange(0, content));
                lemma_fold_block_stable(
                    s.skip(total),
                    more,
                    apply_line(acc, s.subrange(0, content)),
                );
            }
        },
    }
}

/// A scan takes no more than there is, and a frame takes at least a byte.
pub proof fn lemma_scan_bounds(s: Seq<u8>)
    ensures
        0 <= scan(s).1 <= s.len(),
        scan(s).0 is Some ==> 0 < scan(s).1,
        scan(s).0 matches Some(frame) ==> frame.data.len() > 0,
    decreases s.len(),
{
    lemma_block_len_bounds(s);
    match block_len(s) {
        None => {},
        Some(n) => {
            if fold_block(s, empty_frame()).data.len() == 0 {
                lemma_scan_bounds(s.skip(n));
            }
        },
    }
}

/// A frame that is complete is not changed by bytes that arrive later:
/// neither what it holds nor where it ends.
pub proof fn lemma_scan_stable(s: Seq<u8>, more: Seq<u8>)
    requires
        scan(s).0 is Some,
    ensures
        scan(s + more) == scan(s),
    decreases s.len(),
{
    lemma_block_len_bounds(s);
    match block_len(s) {
        None => {},
        Some(n) => {
            lemma_block_len_stable(s, more);
            lemma_fold_block_stable(s, more, empty_frame());
            if fold_block(s, empty_frame()).data.len() == 0 {
                assert((s + more).skip(n) =~= s.skip(n) + more);
                lemma_scan_stable(s.skip(n), more);
            }
        },
    }
}

/// Where no frame is complete, letting go of the blocks in front loses
/// nothing: scanning on after more bytes arrive finds what a scan of the
/// whole would find, at the same place.
pub proof fn lemma_scan_idle(s: Seq<u8>, more: Seq<u8>)
    requires
        scan(s).0 is None,
    ensures
        scan(s + more).0 == scan(s.skip(scan(s).1) + more).0,
        scan(s + more).1 == scan(s).1 + scan(s.skip(scan(s).1) + more).1,
    decreases s.len(),
{
    lemma_block_len_bounds(s);
    match block_len(s) {
        None => {
            assert(s.skip(0) =~= s);
        },
        Some(n) => {
            lemma_block_len_stable(s, more);
            lemma_fold_block_stable(s, more, empty_frame());
            let m = scan(s.skip(n)).1;
            lemma_scan_bounds(s.skip(n));
            assert((s + more).skip(n) =~= s.skip(n) + more);
            lemma_scan_idle(s.skip(n), more);
            assert(s.skip(n).skip(m) =~= s.skip(n + m));
        },
    }
}

/// What is left after all frames are taken is a tail of the input.
pub proof fn lemma_remainder_is_tail(s: Seq<u8>)
    ensures
        exists|k: int| 0 <= k <= s.len() && remainder(s) == #[trigger] s.skip(k),
    decreases s.len(),
{
    lemma_scan_bounds(s);
    match scan(s) {
        (Some(_), n) => {
            lemma_remainder_is_tail(s.skip(n));
            let k = choose|k: int|
                0 <= k <= s.skip(n).len() && remainder(s.skip(n)) == #[trigger] s.skip(n).skip(k);
            assert(s.skip(n).skip(k) =~= s.skip(n + k));
        },
        (None, m) => {},
    }
}

/// Cutting the input into chunks changes nothing. The frames of `a`
/// followed by `b` are the frames of `a`, then the frames found once `b` is
/// put behind what `a` left over: the same frames, in the same order, none
/// lost at the seam and none made up. What is left over agrees as well.
pub proof fn lemma_chunking(a: Seq<u8>, b: Seq<u8>)
    ensures
        frames(a + b) == frames(a) + frames(remainder(a) + b),
        remainder(a + b) == remainder(remainder(a) + b),
    decreases a.len(),
{
    lemma_scan_bounds(a);
    match scan(a) {
        (Some(frame), n) => {
            lemma_scan_stable(a, b);
            assert((a + b).skip(n) =~= a.skip(n) + b);
            lemma_chunking(a.skip(n), b);
            assert(frames(a + b) =~= frames(a) + frames(remainder(a) + b));
        },
        (None, m) => {
            lemma_scan_idle(a, b);
            let rest = a.skip(m) + b;
            lemma_scan_bounds(rest);
            lemma_scan_bounds(a + b);
            assert(frames(a) =~= Seq::<RawFrame>::empty());
            match scan(rest) {
                (Some(later), k) => {
                    assert((a + b).skip(m + k) =~= rest.skip(k));
                },
                (None, k) => {
                    assert((a + b).skip(m + k) =~= rest.skip(k));
                },
            }
            assert(frames(a + b) =~= frames(a) + frames(remainder(a) + b));
        },
    }
}

/// Once the start of a stream shows whether it opens with a byte order
/// mark, later bytes do not change the answer.
pub proof fn lemma_bom_stable(s: Seq<u8>, more: Seq<u8>)
    requires
        bom_len(s) is Some,
    ensures
        bom_len(s + more) == bom_len(s),
{
    let t = s + more;
    if s.len() >= 3 {
        assert(t.subrange(0, 3) =~= s.subrange(0, 3));
    } else {
        let k = s.len() as int;
        assert(s != bom().subrange(0, k));
        assert(!(s =~= bom().subrange(0, k)));
        let i = choose|i: int| 0 <= i < k && s[i] != bom().subrange(0, k)[i];
        assert(t[i] == s[i]);
        if t.len() >= 3 {
            assert(t.subrange(0, 3)[i] == t[i]);
        } else {
            assert(bom().subrange(0, t.len() as int)[i] == bom()[i]);
        }
    }
}

} // verus!
