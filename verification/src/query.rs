//! Query parameters as an ordered list of name and value pairs.
//!
//! A typed parameter value turns into the pairs that the transport then
//! writes into the URL, and the pairs can be read back into the value.

use vstd::prelude::*;
use crate::decimal::{decimal, decimal_value, lemma_decimal_round_trip, parse_decimal, render_decimal};

verus! {

/// The pairs of a query, as mathematics.
pub type Pairs = Seq<(Seq<char>, Seq<char>)>;

/// The value that `pairs` gives for `name`: that of the first pair of that
/// name, if there is one.
pub open spec fn value_of(pairs: Pairs, name: Seq<char>) -> Option<Seq<char>>
    decreases pairs.len(),
{
    if pairs.len() == 0 {
        None
    } else if pairs[0].0 == name {
        Some(pairs[0].1)
    } else {
        value_of(pairs.skip(1), name)
    }
}

/// The pair of a field that may be absent: one pair where it is present,
/// none where it is not.
pub open spec fn optional_pair(name: Seq<char>, value: Option<Seq<char>>) -> Pairs {
    match value {
        Some(text) => seq![(name, text)],
        None => Seq::empty(),
    }
}

/// The text of a flag.
pub open spec fn flag_text(flag: bool) -> Seq<char> {
    if flag {
        "true"@
    } else {
        "false"@
    }
}

/// Looking a name up in two lists put together finds what the first list
/// gives, and what the second gives where the first has nothing.
pub proof fn lemma_value_of_concat(a: Pairs, b: Pairs, name: Seq<char>)
    ensures
        value_of(a + b, name) == match value_of(a, name) {
            Some(text) => Some(text),
            None => value_of(b, name),
        },
    decreases a.len(),
{
    if a.len() == 0 {
        assert(a + b =~= b);
    } else {
        assert((a + b)[0] == a[0]);
        assert((a + b).skip(1) =~= a.skip(1) + b);
        lemma_value_of_concat(a.skip(1), b, name);
    }
}

/// What a lookup finds in the pair of one optional field.
pub proof fn lemma_value_of_optional(field: Seq<char>, value: Option<Seq<char>>, name: Seq<char>)
    ensures
        value_of(optional_pair(field, value), name) == if field == name {
            value
        } else {
            None
        },
{
    match value {
        Some(text) => {
            let pairs = optional_pair(field, value);
            assert(pairs.len() == 1);
            assert(pairs[0] == (field, text));
            assert(value_of(pairs.skip(1), name) is None);
        },
        None => {},
    }
}

/// Puts one pair behind the others.
pub fn push_pair(pairs: &mut Vec<(String, String)>, name: &str, value: String)
    ensures
        final(pairs).deep_view() == old(pairs).deep_view().push((name@, value@)),
{
    let ghost before = pairs.deep_view();
    let entry = (name.to_string(), value);
    assert(entry.deep_view() == (name@, value@));
    pairs.push(entry);
    assert(pairs.deep_view() =~= before.push((name@, value@))) by {
        assert forall|i: int| 0 <= i < pairs.len() implies pairs.deep_view()[i] == before.push(
            (name@, value@),
        )[i] by {
            if i < before.len() {
                assert(pairs[i] == old(pairs)[i]);
            }
        }
    }
}

/// Puts the pair of an optional text field behind the others.
pub fn push_optional(pairs: &mut Vec<(String, String)>, name: &str, value: &Option<String>)
    ensures
        final(pairs).deep_view() == old(pairs).deep_view() + optional_pair(
            name@,
            value.deep_view(),
        ),
{
    let ghost before = pairs.deep_view();
    match value {
        Some(text) => {
            push_pair(pairs, name, text.clone());
            assert(pairs.deep_view() =~= before + optional_pair(name@, value.deep_view()));
        },
        None => {
            assert(pairs.deep_view() =~= before + optional_pair(name@, value.deep_view()));
        },
    }
}

/// Looks `name` up in `pairs`.
pub fn find_value(pairs: &Vec<(String, String)>, name: &str) -> (out: Option<String>)
    ensures
        out.deep_view() == value_of(pairs.deep_view(), name@),
{
    let key = name.to_string();
    let ghost all = pairs.deep_view();
    let mut i: usize = 0;
    assert(all.skip(0) =~= all);
    while i < pairs.len()
        invariant
            0 <= i <= pairs.len(),
            all == pairs.deep_view(),
            key@ == name@,
            value_of(all, name@) == value_of(all.skip(i as int), name@),
        decreases pairs.len() - i,
    {
        let ghost rest = all.skip(i as int);
        assert(rest[0] == pairs[i as int].deep_view());
        if pairs[i].0 == key {
            return Some(pairs[i].1.clone());
        }
        assert(rest.skip(1) =~= all.skip(i + 1));
        i += 1;
    }
    None
}

/// Reads the text of a flag.
pub fn parse_flag(text: &str) -> (out: Option<bool>)
    ensures
        out == if text@ == flag_text(true) {
            Some(true)
        } else if text@ == flag_text(false) {
            Some(false)
        } else {
            None
        },
{
    let held = text.to_string();
    if held == "true".to_string() {
        Some(true)
    } else if held == "false".to_string() {
        Some(false)
    } else {
        None
    }
}

/// A page size brought into the range that the API accepts, 1 to 1000:
/// what is below is raised to 1, what is above is lowered to 1000.
pub open spec fn clamp_page_limit(n: int) -> int {
    if n < 1 {
        1
    } else if n > 1000 {
        1000
    } else {
        n
    }
}

/// Clamping is defined for every number, lands in the range, leaves what
/// is in the range as it is, and clamping twice is clamping once.
pub proof fn lemma_clamp_page_limit(n: int)
    ensures
        1 <= clamp_page_limit(n) <= 1000,
        1 <= n <= 1000 ==> clamp_page_limit(n) == n,
        clamp_page_limit(clamp_page_limit(n)) == clamp_page_limit(n),
{
}

/// Brings a page size into the accepted range. Nothing is reported where
/// the size had to be changed.
pub fn clamp_limit(limit: u16) -> (out: u16)
    ensures
        out == clamp_page_limit(limit as int),
{
    if limit < 1 {
        1
    } else if limit > 1000 {
        1000
    } else {
        limit
    }
}

/// The text of a page size that may be absent.
pub open spec fn limit_text(limit: Option<u16>) -> Option<Seq<char>> {
    match limit {
        Some(n) => Some(decimal(n as nat)),
        None => None,
    }
}

/// The pairs of the three pagination fields, in the order in which they
/// are written: the cursor before, the cursor after, the page size. A
/// field that is absent gives no pair.
pub open spec fn page_pairs(
    before_id: Option<Seq<char>>,
    after_id: Option<Seq<char>>,
    limit: Option<u16>,
) -> Pairs {
    optional_pair("before_id"@, before_id) + optional_pair("after_id"@, after_id) + optional_pair(
        "limit"@,
        limit_text(limit),
    )
}

/// The page size that `pairs` give: `Some(None)` where they give none,
/// `None` where what they give is no page size.
pub open spec fn limit_of(pairs: Pairs) -> Option<Option<u16>> {
    match value_of(pairs, "limit"@) {
        None => Some(None),
        Some(text) => match decimal_value(text) {
            Some(n) => if n <= u16::MAX {
                Some(Some(n as u16))
            } else {
                None
            },
            None => None,
        },
    }
}

/// The flag that `pairs` give under `name`, read like a page size.
pub open spec fn flag_of(pairs: Pairs, name: Seq<char>) -> Option<Option<bool>> {
    match value_of(pairs, name) {
        None => Some(None),
        Some(text) => if text == flag_text(true) {
            Some(Some(true))
        } else if text == flag_text(false) {
            Some(Some(false))
        } else {
            None
        },
    }
}

/// The names of the query fields differ from one another.
pub proof fn lemma_field_names_differ()
    ensures
        "before_id"@ != "after_id"@,
        "before_id"@ != "limit"@,
        "before_id"@ != "email"@,
        "before_id"@ != "include_archived"@,
        "after_id"@ != "limit"@,
        "after_id"@ != "email"@,
        "after_id"@ != "include_archived"@,
        "limit"@ != "email"@,
        "limit"@ != "include_archived"@,
        "true"@ != "false"@,
{
    reveal_strlit("before_id");
    reveal_strlit("after_id");
    reveal_strlit("limit");
    reveal_strlit("email");
    reveal_strlit("include_archived");
    reveal_strlit("true");
    reveal_strlit("false");
    assert("before_id"@.len() == 9 && "after_id"@.len() == 8 && "limit"@.len() == 5);
    assert("email"@.len() == 5 && "include_archived"@.len() == 16);
    assert("true"@.len() == 4 && "false"@.len() == 5);
    assert("limit"@[0] != "email"@[0]);
}

/// The pagination fields written as pairs can be read back, each field on
/// its own, present or absent; and pairs put behind them do not change
/// what is read.
pub proof fn lemma_page_round_trip(
    before_id: Option<Seq<char>>,
    after_id: Option<Seq<char>>,
    limit: Option<u16>,
    behind: Pairs,
)
    ensures
        value_of(page_pairs(before_id, after_id, limit) + behind, "before_id"@) == match before_id {
            Some(text) => Some(text),
            None => value_of(behind, "before_id"@),
        },
        value_of(page_pairs(before_id, after_id, limit) + behind, "after_id"@) == match after_id {
            Some(text) => Some(text),
            None => value_of(behind, "after_id"@),
        },
        value_of(behind, "limit"@) is None ==> limit_of(
            page_pairs(before_id, after_id, limit) + behind,
        ) == Some(limit),
        forall|name: Seq<char>|
            name != "before_id"@ && name != "after_id"@ && name != "limit"@ ==> #[trigger] value_of(
                page_pairs(before_id, after_id, limit) + behind,
                name,
            ) == value_of(behind, name),
{
    lemma_field_names_differ();
    let a = optional_pair("before_id"@, before_id);
    let b = optional_pair("after_id"@, after_id);
    let c = optional_pair("limit"@, limit_text(limit));
    assert forall|name: Seq<char>|
        value_of(#[trigger] (a + b + c + behind), name) == match value_of(a, name) {
            Some(text) => Some(text),
            None => match value_of(b, name) {
                Some(text) => Some(text),
                None => match value_of(c, name) {
                    Some(text) => Some(text),
                    None => value_of(behind, name),
                },
            },
        } by {
        lemma_value_of_concat(a + b + c, behind, name);
        lemma_value_of_concat(a + b, c, name);
        lemma_value_of_concat(a, b, name);
    }
    assert forall|name: Seq<char>|
        value_of(a, name) == (if "before_id"@ == name {
            before_id
        } else {
            None
        }) && value_of(b, name) == (if "after_id"@ == name {
            after_id
        } else {
            None
        }) && #[trigger] value_of(c, name) == (if "limit"@ == name {
            limit_text(limit)
        } else {
            None
        }) by {
        lemma_value_of_optional("before_id"@, before_id, name);
        lemma_value_of_optional("after_id"@, after_id, name);
        lemma_value_of_optional("limit"@, limit_text(limit), name);
    }
    let all = page_pairs(before_id, after_id, limit) + behind;
    assert(all == a + b + c + behind);
    assert(value_of(c, "before_id"@) is None);
    assert(value_of(c, "after_id"@) is None);
    assert(value_of(c, "limit"@) == limit_text(limit));
    match limit {
        Some(n) => {
            lemma_decimal_round_trip(n as nat);
        },
        None => {},
    }
    assert forall|name: Seq<char>|
        name != "before_id"@ && name != "after_id"@ && name != "limit"@ implies #[trigger] value_of(
            all,
            name,
        ) == value_of(behind, name) by {
        assert(value_of(c, name) is None);
    }
}

/// Puts the pair of a page size behind the others, if there is one.
pub fn push_limit(pairs: &mut Vec<(String, String)>, limit: Option<u16>)
    ensures
        final(pairs).deep_view() == old(pairs).deep_view() + optional_pair(
            "limit"@,
            limit_text(limit),
        ),
{
    let ghost before = pairs.deep_view();
    match limit {
        Some(n) => {
            push_pair(pairs, "limit", render_decimal(n));
            assert(pairs.deep_view() =~= before + optional_pair("limit"@, limit_text(limit)));
        },
        None => {
            assert(pairs.deep_view() =~= before + optional_pair("limit"@, limit_text(limit)));
        },
    }
}

/// Puts the pair of a flag behind the others, if there is one.
pub fn push_flag(pairs: &mut Vec<(String, String)>, name: &str, flag: Option<bool>)
    ensures
        final(pairs).deep_view() == old(pairs).deep_view() + optional_pair(
            name@,
            match flag {
                Some(b) => Some(flag_text(b)),
                None => None,
            },
        ),
{
    let ghost before = pairs.deep_view();
    match flag {
        Some(b) => {
            let text = if b {
                "true".to_string()
            } else {
                "false".to_string()
            };
            push_pair(pairs, name, text);
            assert(pairs.deep_view() =~= before + optional_pair(name@, Some(flag_text(b))));
        },
        None => {
            assert(pairs.deep_view() =~= before + optional_pair(name@, None));
        },
    }
}

/// Reads the page size out of `pairs`.
pub fn find_limit(pairs: &Vec<(String, String)>) -> (out: Option<Option<u16>>)
    ensures
        out == limit_of(pairs.deep_view()),
{
    match find_value(pairs, "limit") {
        None => Some(None),
        Some(text) => match parse_decimal(text.as_str()) {
            Some(n) => Some(Some(n)),
            None => None,
        },
    }
}

/// Reads a flag out of `pairs`.
pub fn find_flag(pairs: &Vec<(String, String)>, name: &str) -> (out: Option<Option<bool>>)
    ensures
        out == flag_of(pairs.deep_view(), name@),
{
    match find_value(pairs, name) {
        None => Some(None),
        Some(text) => match parse_flag(text.as_str()) {
            Some(flag) => Some(Some(flag)),
            None => None,
        },
    }
}

} // verus!
