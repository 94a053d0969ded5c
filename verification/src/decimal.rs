//! Page limits as decimal text, the form in which they travel in a query.

use vstd::prelude::*;
use vstd::string::StringExecFns;

verus! {

/// The character of the digit `d`.
pub open spec fn digit_char(d: int) -> char {
    if d == 0 {
        '0'
    } else if d == 1 {
        '1'
    } else if d == 2 {
        '2'
    } else if d == 3 {
        '3'
    } else if d == 4 {
        '4'
    } else if d == 5 {
        '5'
    } else if d == 6 {
        '6'
    } else if d == 7 {
        '7'
    } else if d == 8 {
        '8'
    } else {
        '9'
    }
}

/// The digit that `c` stands for, if it is one.
pub open spec fn digit_value(c: char) -> Option<int> {
    if c == '0' {
        Some(0)
    } else if c == '1' {
        Some(1)
    } else if c == '2' {
        Some(2)
    } else if c == '3' {
        Some(3)
    } else if c == '4' {
        Some(4)
    } else if c == '5' {
        Some(5)
    } else if c == '6' {
        Some(6)
    } else if c == '7' {
        Some(7)
    } else if c == '8' {
        Some(8)
    } else if c == '9' {
        Some(9)
    } else {
        None
    }
}

/// The decimal numeral of `n`, without leading zeros.
pub open spec fn decimal(n: nat) -> Seq<char>
    decreases n,
{
    if n < 10 {
        seq![digit_char(n as int)]
    } else {
        decimal(n / 10).push(digit_char((n % 10) as int))
    }
}

/// The number that a run of digits denotes; `None` for the empty text and
/// for text that holds anything but digits.
pub open spec fn decimal_value(text: Seq<char>) -> Option<nat>
    decreases text.len(),
{
    if text.len() == 0 {
        None
    } else {
        match digit_value(text.last()) {
            None => None,
            Some(d) => if text.len() == 1 {
                Some(d as nat)
            } else {
                match decimal_value(text.drop_last()) {
                    None => None,
                    Some(front) => Some(front * 10 + d as nat),
                }
            },
        }
    }
}

/// Reading a numeral gives back the number it was written for.
pub proof fn lemma_decimal_round_trip(n: nat)
    ensures
        decimal_value(decimal(n)) == Some(n),
        decimal(n).len() > 0,
    decreases n,
{
    if n < 10 {
        assert(decimal(n).last() == digit_char(n as int));
    } else {
        lemma_decimal_round_trip(n / 10);
        let text = decimal(n);
        assert(text.last() == digit_char((n % 10) as int));
        assert(text.drop_last() =~= decimal(n / 10));
        assert(text.len() > 1);
    }
}

/// The text of one digit.
fn digit_text(d: u16) -> (out: &'static str)
    requires
        d < 10,
    ensures
        out@ == seq![digit_char(d as int)],
{
    proof {
        reveal_strlit("0");
        reveal_strlit("1");
        reveal_strlit("2");
        reveal_strlit("3");
        reveal_strlit("4");
        reveal_strlit("5");
        reveal_strlit("6");
        reveal_strlit("7");
        reveal_strlit("8");
        reveal_strlit("9");
    }
    let out = if d == 0 {
        "0"
    } else if d == 1 {
        "1"
    } else if d == 2 {
        "2"
    } else if d == 3 {
        "3"
    } else if d == 4 {
        "4"
    } else if d == 5 {
        "5"
    } else if d == 6 {
        "6"
    } else if d == 7 {
        "7"
    } else if d == 8 {
        "8"
    } else {
        "9"
    };
    assert(out@ =~= seq![digit_char(d as int)]);
    out
}

/// Writes `n` as a decimal numeral.
pub fn render_decimal(n: u16) -> (out: String)
    ensures
        out@ == decimal(n as nat),
    decreases n,
{
    if n < 10 {
        digit_text(n).to_string()
    } else {
        let mut out = render_decimal(n / 10);
        out.append(digit_text(n % 10));
        assert(out@ =~= decimal(n as nat));
        out
    }
}

/// Reads a decimal numeral. `None` where the text is no run of digits or
/// denotes more than a `u16` holds.
pub fn parse_decimal(text: &str) -> (out: Option<u16>)
    ensures
        out == match decimal_value(text@) {
            Some(n) => if n <= u16::MAX {
                Some(n as u16)
            } else {
                None
            },
            None => None,
        },
{
    let n = text.unicode_len();
    if n == 0 {
        return None;
    }
    let mut value: u32 = 0;
    let mut over = false;
    let mut i: usize = 0;
    while i < n
        invariant
            0 <= i <= n,
            n == text@.len(),
            value <= u16::MAX,
            i == 0 ==> value == 0 && !over,
            i > 0 ==> match decimal_value(text@.subrange(0, i as int)) {
                Some(v) => if over {
                    v > u16::MAX
                } else {
                    v == value
                },
                None => false,
            },
        decreases n - i,
    {
        let c = text.get_char(i);
        let ghost front = text@.subrange(0, i as int);
        let ghost next = text@.subrange(0, i + 1);
        proof {
            assert(next.last() == c);
            assert(next.drop_last() =~= front);
        }
        let d: u32 = if c == '0' {
            0
        } else if c == '1' {
            1
        } else if c == '2' {
            2
        } else if c == '3' {
            3
        } else if c == '4' {
            4
        } else if c == '5' {
            5
        } else if c == '6' {
            6
        } else if c == '7' {
            7
        } else if c == '8' {
            8
        } else if c == '9' {
            9
        } else {
            proof {
                lemma_no_value_behind(text@, i + 1);
            }
            return None;
        };
        proof {
            assert(digit_value(c) == Some(d as int));
            assert(next.len() == i + 1);
            if i == 0 {
                assert(decimal_value(next) == Some(d as nat));
            } else {
                assert(decimal_value(next) == Some(
                    decimal_value(front).unwrap() * 10 + d as nat,
                ));
            }
        }
        if !over {
            let grown: u32 = value * 10 + d;
            if grown > 65535 {
                over = true;
            } else {
                value = grown;
            }
        }
        i += 1;
    }
    assert(text@.subrange(0, n as int) =~= text@);
    if over {
        None
    } else {
        Some(value as u16)
    }
}

/// Text with a front that denotes nothing denotes nothing.
proof fn lemma_no_value_behind(text: Seq<char>, k: int)
    requires
        0 < k <= text.len(),
        decimal_value(text.subrange(0, k)) is None,
    ensures
        decimal_value(text) is None,
    decreases text.len() - k,
{
    if k < text.len() {
        let next = text.subrange(0, k + 1);
        assert(next.drop_last() =~= text.subrange(0, k));
        lemma_no_value_behind(text, k + 1);
    } else {
        assert(text.subrange(0, k) =~= text);
    }
}

} // verus!
