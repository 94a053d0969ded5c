//! Finding lines, blocks and frames in a buffer of bytes.

use vstd::prelude::*;
use crate::stream::framing::{
    apply_line, block_len, data_field, empty_frame, event_field, field_value, first_line,
    fold_block, is_break, is_line_len, is_name_len, scan, RawFrame, COLON, CR, LF, SPACE,
};
use crate::stream::laws::{
    lemma_block_len_bounds, lemma_first_line_bounds, lemma_line_len, lemma_name_len,
    lemma_scan_bounds,
};

verus! {

/// Finds the first line of `buf` from `from` on: the index at which its
/// content ends and the index behind its terminator.
pub fn find_line(buf: &Vec<u8>, from: usize) -> (out: Option<(usize, usize)>)
    requires
        from <= buf.len(),
    ensures
        match first_line(buf@.skip(from as int)) {
            Some((content, total)) => out == Some(
                ((from + content) as usize, (from + total) as usize),
            ) && from + total <= buf.len(),
            None => out is None,
        },
{
    let n = buf.len();
    let mut i = from;
    while i < n && buf[i] != LF && buf[i] != CR
        invariant
            from <= i <= n,
            n == buf.len(),
            forall|j: int| from <= j < i ==> !is_break(#[trigger] buf@[j]),
        decreases n - i,
    {
        i += 1;
    }
    proof {
        let s = buf@.skip(from as int);
        assert(is_line_len(s, i - from)) by {
            assert forall|j: int| 0 <= j < i - from implies !is_break(#[trigger] s[j]) by {
                assert(s[j] == buf@[from + j]);
            }
            if i < n {
                assert(s[i - from] == buf@[i as int]);
            }
        }
        lemma_line_len(s);
        if i < n {
            assert(s[i - from] == buf@[i as int]);
            if i + 1 < n {
                assert(s[i - from + 1] == buf@[i + 1]);
            }
        }
    }
    if i >= n {
        None
    } else if buf[i] == LF {
        Some((i, i + 1))
    } else if i + 1 >= n {
        None
    } else if buf[i + 1] == LF {
        Some((i, i + 2))
    } else {
        Some((i, i + 1))
    }
}

/// Puts the bytes of `buf` from `a` up to `b` behind those of `out`.
pub fn copy_range(buf: &Vec<u8>, a: usize, b: usize, out: &mut Vec<u8>)
    requires
        a <= b <= buf.len(),
    ensures
        final(out)@ == old(out)@ + buf@.subrange(a as int, b as int),
{
    let mut i = a;
    while i < b
        invariant
            a <= i <= b <= buf.len(),
            out@ == old(out)@ + buf@.subrange(a as int, i as int),
        decreases b - i,
    {
        out.push(buf[i]);
        i += 1;
        assert(out@ =~= old(out)@ + buf@.subrange(a as int, i as int));
    }
}

/// Whether the bytes of `buf` from `a` up to `b` spell `data`.
fn is_data_name(buf: &Vec<u8>, a: usize, b: usize) -> (out: bool)
    requires
        a <= b <= buf.len(),
    ensures
        out == (buf@.subrange(a as int, b as int) == data_field()),
{
    let ghost name = buf@.subrange(a as int, b as int);
    if b - a == 4 {
        let same = buf[a] == 100 && buf[a + 1] == 97 && buf[a + 2] == 116 && buf[a + 3] == 97;
        proof {
            assert(name[0] == buf@[a as int]);
            assert(name[1] == buf@[a + 1]);
            assert(name[2] == buf@[a + 2]);
            assert(name[3] == buf@[a + 3]);
            assert(data_field().len() == 4 && data_field()[0] == 100 && data_field()[1] == 97
                && data_field()[2] == 116 && data_field()[3] == 97);
            if same {
                assert(name =~= data_field());
            }
        }
        same
    } else {
        assert(data_field().len() == 4);
        false
    }
}

/// Whether the bytes of `buf` from `a` up to `b` spell `event`.
fn is_event_name(buf: &Vec<u8>, a: usize, b: usize) -> (out: bool)
    requires
        a <= b <= buf.len(),
    ensures
        out == (buf@.subrange(a as int, b as int) == event_field()),
{
    let ghost name = buf@.subrange(a as int, b as int);
    if b - a == 5 {
        let same = buf[a] == 101 && buf[a + 1] == 118 && buf[a + 2] == 101 && buf[a + 3] == 110
            && buf[a + 4] == 116;
        proof {
            assert(name[0] == buf@[a as int]);
            assert(name[1] == buf@[a + 1]);
            assert(name[2] == buf@[a + 2]);
            assert(name[3] == buf@[a + 3]);
            assert(name[4] == buf@[a + 4]);
            assert(event_field().len() == 5 && event_field()[0] == 101 && event_field()[1] == 118
                && event_field()[2] == 101 && event_field()[3] == 110 && event_field()[4]
                == 116);
            if same {
                assert(name =~= event_field());
            }
        }
        same
    } else {
        assert(event_field().len() == 5);
        false
    }
}

/// Reads the line that `buf` holds from `a` up to `b` into the frame that
/// `name` and `data` make up.
pub fn read_line(buf: &Vec<u8>, a: usize, b: usize, name: &mut Vec<u8>, data: &mut Vec<u8>)
    requires
        a < b <= buf.len(),
    ensures
        (RawFrame { name: final(name)@, data: final(data)@ }) == apply_line(
            RawFrame { name: old(name)@, data: old(data)@ },
            buf@.subrange(a as int, b as int),
        ),
{
    let ghost line = buf@.subrange(a as int, b as int);
    assert(line[0] == buf@[a as int]);
    if buf[a] == COLON {
        return ;
    }
    let mut k = a;
    while k < b && buf[k] != COLON
        invariant
            a <= k <= b <= buf.len(),
            forall|j: int| a <= j < k ==> #[trigger] buf@[j] != COLON,
        decreases b - k,
    {
        k += 1;
    }
    proof {
        assert(is_name_len(line, k - a)) by {
            assert forall|j: int| 0 <= j < k - a implies #[trigger] line[j] != COLON by {
                assert(line[j] == buf@[a + j]);
            }
            if k < b {
                assert(line[k - a] == buf@[k as int]);
            }
        }
        lemma_name_len(line);
        assert(line.subrange(0, k - a) =~= buf@.subrange(a as int, k as int));
    }
    let start = if k >= b {
        b
    } else if k + 1 < b && buf[k + 1] == SPACE {
        k + 2
    } else {
        k + 1
    };
    proof {
        if k < b {
            if k + 1 < b {
                assert(line[k - a + 1] == buf@[k + 1]);
            }
            assert(field_value(line) =~= buf@.subrange(start as int, b as int));
        } else {
            assert(field_value(line) =~= buf@.subrange(start as int, b as int));
        }
    }
    if is_data_name(buf, a, k) {
        copy_range(buf, start, b, data);
        data.push(LF);
        assert(data@ =~= old(data)@ + field_value(line) + seq![LF]);
    } else if is_event_name(buf, a, k) {
        let mut value: Vec<u8> = Vec::new();
        copy_range(buf, start, b, &mut value);
        assert(value@ =~= field_value(line));
        *name = value;
    }
}

/// Reads the first block of `buf` from `from` on: the index behind its
/// blank line and the name and data that its lines add up to. `None` while
/// the block is not complete.
pub fn read_block(buf: &Vec<u8>, from: usize) -> (out: Option<(usize, Vec<u8>, Vec<u8>)>)
    requires
        from <= buf.len(),
    ensures
        match block_len(buf@.skip(from as int)) {
            Some(n) => out matches Some((end, name, data)) && end == from + n && end <= buf.len()
                && (RawFrame { name: name@, data: data@ }) == fold_block(
                buf@.skip(from as int),
                empty_frame(),
            ),
            None => out is None,
        },
{
    let ghost whole = buf@.skip(from as int);
    let mut pos = from;
    let mut name: Vec<u8> = Vec::new();
    let mut data: Vec<u8> = Vec::new();
    assert(name@ =~= empty_frame().name && data@ =~= empty_frame().data);
    loop
        invariant
            from <= pos <= buf.len(),
            whole == buf@.skip(from as int),
            block_len(whole) == match block_len(buf@.skip(pos as int)) {
                Some(n) => Some(pos - from + n),
                None => None,
            },
            fold_block(whole, empty_frame()) == fold_block(
                buf@.skip(pos as int),
                RawFrame { name: name@, data: data@ },
            ),
        decreases buf.len() - pos,
    {
        let ghost rest = buf@.skip(pos as int);
        proof {
            lemma_first_line_bounds(rest);
        }
        match find_line(buf, pos) {
            None => {
                return None;
            },
            Some((content_end, next)) => {
                if content_end == pos {
                    proof {
                        lemma_block_len_bounds(whole);
                    }
                    return Some((next, name, data));
                }
                read_line(buf, pos, content_end, &mut name, &mut data);
                proof {
                    assert(rest.subrange(0, content_end - pos) =~= buf@.subrange(
                        pos as int,
                        content_end as int,
                    ));
                    assert(rest.skip(next - pos) =~= buf@.skip(next as int));
                }
                pos = next;
            },
        }
    }
}

/// Scans `buf` from `from` on for its first frame: the name and data of
/// the frame, if one is complete, and the index up to which `buf` can be
/// let go.
pub fn scan_from(buf: &Vec<u8>, from: usize) -> (out: (Option<(Vec<u8>, Vec<u8>)>, usize))
    requires
        from <= buf.len(),
    ensures
        out.1 == from + scan(buf@.skip(from as int)).1,
        from <= out.1 <= buf.len(),
        match scan(buf@.skip(from as int)).0 {
            Some(raw) => out.0 matches Some((name, data)) && name@ == raw.name && data@
                == raw.data,
            None => out.0 is None,
        },
{
    let ghost whole = buf@.skip(from as int);
    let mut pos = from;
    proof {
        lemma_scan_bounds(whole);
    }
    loop
        invariant
            from <= pos <= buf.len(),
            whole == buf@.skip(from as int),
            scan(whole).0 == scan(buf@.skip(pos as int)).0,
            scan(whole).1 == pos - from + scan(buf@.skip(pos as int)).1,
        decreases buf.len() - pos,
    {
        let ghost rest = buf@.skip(pos as int);
        proof {
            lemma_block_len_bounds(rest);
            lemma_scan_bounds(rest);
        }
        match read_block(buf, pos) {
            None => {
                return (None, pos);
            },
            Some((end, name, data)) => {
                if data.len() > 0 {
                    return (Some((name, data)), end);
                }
                proof {
                    assert(rest.skip(end - pos) =~= buf@.skip(end as int));
                }
                pos = end;
            },
        }
    }
}

} // verus!
