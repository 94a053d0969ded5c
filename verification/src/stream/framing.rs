//! The framing of a server-sent event stream, as mathematics on bytes.
//!
//! A stream is a run of lines, each ended by LF, CR or CR LF. A blank line
//! closes a block. A block that holds at least one `data` line is a frame;
//! blocks without one (comments, keep-alives) carry nothing. Every function
//! here reads the front of a byte sequence and is unchanged by bytes that
//! arrive later, which is what lets a decoder work chunk by chunk.

use vstd::prelude::*;

verus! {

pub const LF: u8 = 10;

pub const CR: u8 = 13;

pub const SPACE: u8 = 32;

pub const COLON: u8 = 58;

/// Whether `b` ends a line.
pub open spec fn is_break(b: u8) -> bool {
    b == LF || b == CR
}

/// `k` is the number of bytes in front of the first line break of `s`
/// (all of them, where `s` holds no break).
pub open spec fn is_line_len(s: Seq<u8>, k: int) -> bool {
    &&& 0 <= k <= s.len()
    &&& forall|j: int| 0 <= j < k ==> !is_break(#[trigger] s[j])
    &&& (k < s.len() ==> is_break(s[k]))
}

/// The number of bytes in front of the first line break of `s`.
pub open spec fn line_len(s: Seq<u8>) -> int {
    choose|k: int| is_line_len(s, k)
}

/// The first line of `s` as `(content, total)`: the line holds `content`
/// bytes and, with its terminator, `total`. `None` while the terminator is
/// not complete: a CR at the very end may yet turn out to be half of CR LF.
pub open spec fn first_line(s: Seq<u8>) -> Option<(int, int)> {
    let k = line_len(s);
    if k >= s.len() {
        None
    } else if s[k] == LF {
        Some((k, k + 1))
    } else if k + 1 >= s.len() {
        None
    } else if s[k + 1] == LF {
        Some((k, k + 2))
    } else {
        Some((k, k + 1))
    }
}

/// The length of the first block of `s`: its lines up to and including the
/// first blank one. `None` while the block is not complete.
pub open spec fn block_len(s: Seq<u8>) -> Option<int>
    decreases s.len(),
{
    match first_line(s) {
        None => None,
        Some((content, total)) => if content == 0 {
            Some(total)
        } else if 0 < total <= s.len() {
            match block_len(s.skip(total)) {
                Some(n) => Some(total + n),
                None => None,
            }
        } else {
            None
        },
    }
}

/// What the lines of one block add up to, before any text is decoded.
pub struct RawFrame {
    /// The value of the last `event` line, empty if there was none.
    pub name: Seq<u8>,
    /// The values of the `data` lines, each followed by LF.
    pub data: Seq<u8>,
}

/// The block nothing has been read into.
pub open spec fn empty_frame() -> RawFrame {
    RawFrame { name: Seq::empty(), data: Seq::empty() }
}

/// The field name `data`.
pub open spec fn data_field() -> Seq<u8> {
    seq![100u8, 97u8, 116u8, 97u8]
}

/// The field name `event`.
pub open spec fn event_field() -> Seq<u8> {
    seq![101u8, 118u8, 101u8, 110u8, 116u8]
}

/// `k` is the number of bytes in front of the first colon of `line`.
pub open spec fn is_name_len(line: Seq<u8>, k: int) -> bool {
    &&& 0 <= k <= line.len()
    &&& forall|j: int| 0 <= j < k ==> #[trigger] line[j] != COLON
    &&& (k < line.len() ==> line[k] == COLON)
}

/// The number of bytes in front of the first colon of `line`.
pub open spec fn name_len(line: Seq<u8>) -> int {
    choose|k: int| is_name_len(line, k)
}

/// The value of a field line: what follows the colon, less one leading
/// space; empty where the line has no colon.
pub open spec fn field_value(line: Seq<u8>) -> Seq<u8> {
    let k = name_len(line);
    if k >= line.len() {
        Seq::empty()
    } else if k + 1 < line.len() && line[k + 1] == SPACE {
        line.subrange(k + 2, line.len() as int)
    } else {
        line.subrange(k + 1, line.len() as int)
    }
}

/// The frame after one more line of its block has been read. A line that
/// starts with a colon is a comment; a field other than `data` and `event`
/// is ignored.
pub open spec fn apply_line(acc: RawFrame, line: Seq<u8>) -> RawFrame {
    if line.len() == 0 || line[0] == COLON {
        acc
    } else {
        let name = line.subrange(0, name_len(line));
        if name == data_field() {
            RawFrame { name: acc.name, data: acc.data + field_value(line) + seq![LF] }
        } else if name == event_field() {
            RawFrame { name: field_value(line), data: acc.data }
        } else {
            acc
        }
    }
}

/// The lines of the first block of `s`, read into `acc` one after another.
pub open spec fn fold_block(s: Seq<u8>, acc: RawFrame) -> RawFrame
    decreases s.len(),
{
    match first_line(s) {
        None => acc,
        Some((content, total)) => if content == 0 || !(0 < total <= s.len()) {
            acc
        } else {
            fold_block(s.skip(total), apply_line(acc, s.subrange(0, content)))
        },
    }
}

/// The first frame of `s` and the number of bytes up to its end. Where no
/// frame is complete the first part is `None` and the second counts the
/// complete blocks in front, which carry nothing and can be let go.
pub open spec fn scan(s: Seq<u8>) -> (Option<RawFrame>, int)
    decreases s.len(),
{
    match block_len(s) {
        None => (None, 0),
        Some(n) => if !(0 < n <= s.len()) {
            (None, 0)
        } else {
            let frame = fold_block(s, empty_frame());
            if frame.data.len() > 0 {
                (Some(frame), n)
            } else {
                let (later, m) = scan(s.skip(n));
                (later, n + m)
            }
        },
    }
}

/// All frames of `s`, in the order in which they lie on the wire.
pub open spec fn frames(s: Seq<u8>) -> Seq<RawFrame>
    decreases s.len(),
{
    match scan(s) {
        (Some(frame), n) => if 0 < n <= s.len() {
            seq![frame] + frames(s.skip(n))
        } else {
            Seq::empty()
        },
        (None, _) => Seq::empty(),
    }
}

/// What is left of `s` once all its frames are taken: the start of a block
/// that is not complete yet.
pub open spec fn remainder(s: Seq<u8>) -> Seq<u8>
    decreases s.len(),
{
    match scan(s) {
        (Some(_), n) => if 0 < n <= s.len() {
            remainder(s.skip(n))
        } else {
            s
        },
        (None, m) => s.skip(m),
    }
}

/// The byte order mark, which may stand once at the start of a stream.
pub open spec fn bom() -> Seq<u8> {
    seq![239u8, 187u8, 191u8]
}

/// How many leading bytes of a stream are its byte order mark: 3 or 0.
/// `None` while `s` is too short to tell.
pub open spec fn bom_len(s: Seq<u8>) -> Option<int> {
    if s.len() >= 3 {
        if s.subrange(0, 3) == bom() {
            Some(3)
        } else {
            Some(0)
        }
    } else if s == bom().subrange(0, s.len() as int) {
        None
    } else {
        Some(0)
    }
}

/// The payload of a frame: its data without the LF that the last `data`
/// line added.
pub open spec fn payload(frame: RawFrame) -> Seq<u8> {
    if frame.data.len() > 0 {
        frame.data.drop_last()
    } else {
        frame.data
    }
}

} // verus!
