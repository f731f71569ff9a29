//! Reading the fields of a stored hash.

use vstd::prelude::*;
use crate::database::command::{pairs_view, Pairs};
use crate::text::{parse_i64, parse_i64_spec, parse_u8, parse_u8_spec, str_eq};

verus! {

/// The text that the pairs give for `key`: that of the last pair with this key.
pub open spec fn last_value(data: Pairs, key: Seq<char>) -> Option<Seq<char>>
    decreases data.len(),
{
    if data.len() == 0 {
        None
    } else if data.last().0 == key {
        Some(data.last().1)
    } else {
        last_value(data.drop_last(), key)
    }
}

/// The text of a field, empty where the field is absent.
pub open spec fn text_of(data: Pairs, key: Seq<char>) -> Seq<char> {
    match last_value(data, key) {
        Some(text) => text,
        None => Seq::empty(),
    }
}

/// The small number that a field holds, zero where the field is absent or holds none.
pub open spec fn byte_of(data: Pairs, key: Seq<char>) -> u8 {
    match last_value(data, key) {
        Some(text) => match parse_u8_spec(text) {
            Some(b) => b,
            None => 0,
        },
        None => 0,
    }
}

/// The instant that a field holds, `otherwise` where the field is absent or holds none.
pub open spec fn instant_of(data: Pairs, key: Seq<char>, otherwise: i64) -> i64 {
    match last_value(data, key) {
        Some(text) => match parse_i64_spec(text) {
            Some(t) => t,
            None => otherwise,
        },
        None => otherwise,
    }
}

/// The instant that a field holds, nothing where the field is absent or empty.
pub open spec fn optional_instant_of(data: Pairs, key: Seq<char>) -> Option<i64> {
    match last_value(data, key) {
        Some(text) => if text.len() > 0 {
            parse_i64_spec(text)
        } else {
            None
        },
        None => None,
    }
}

/// Whether no two pairs have the same key.
pub open spec fn distinct_keys(data: Pairs) -> bool {
    forall|i: int, j: int| 0 <= i < j < data.len() ==> (#[trigger] data[i]).0 != (#[trigger] data[j]).0
}

/// Under distinct keys, each pair gives the text of its key.
pub proof fn lemma_last_value_of_distinct(data: Pairs, i: int)
    requires
        distinct_keys(data),
        0 <= i < data.len(),
    ensures
        last_value(data, data[i].0) == Some(data[i].1),
    decreases data.len(),
{
    if i < data.len() - 1 {
        let shorter = data.drop_last();
        assert(data[i].0 != data[data.len() - 1].0);
        assert(distinct_keys(shorter)) by {
            assert forall|a: int, b: int| 0 <= a < b < shorter.len() implies (#[trigger] shorter[a]).0
                != (#[trigger] shorter[b]).0 by {
                assert(shorter[a] == data[a]);
                assert(shorter[b] == data[b]);
            }
        }
        assert(shorter[i] == data[i]);
        lemma_last_value_of_distinct(shorter, i);
    }
}

/// Looks up the text of the last pair with the key.
pub fn find_last<'a>(data: &'a Vec<(String, String)>, key: &str) -> (text: Option<&'a String>)
    ensures
        match text {
            Some(t) => last_value(pairs_view(data@), key@) == Some(t@),
            None => last_value(pairs_view(data@), key@) is None,
        },
{
    let ghost all = pairs_view(data@);
    let mut i: usize = data.len();
    assert(all.subrange(0, i as int) =~= all);
    while i > 0
        invariant
            0 <= i <= data.len(),
            all == pairs_view(data@),
            last_value(all, key@) == last_value(all.subrange(0, i as int), key@),
        decreases i,
    {
        let ghost prefix = all.subrange(0, i as int);
        proof {
            assert(prefix.last() == all[i - 1]);
            assert(all[i - 1] == (data@[i - 1].0@, data@[i - 1].1@));
            assert(prefix.drop_last() =~= all.subrange(0, i - 1));
        }
        if str_eq(data[i - 1].0.as_str(), key) {
            return Some(&data[i - 1].1);
        }
        i -= 1;
    }
    assert(all.subrange(0, 0).len() == 0);
    None
}

/// The text of a field, empty where the field is absent.
pub fn text_field(data: &Vec<(String, String)>, key: &str) -> (text: String)
    ensures
        text@ == text_of(pairs_view(data@), key@),
{
    match find_last(data, key) {
        Some(t) => t.clone(),
        None => String::new(),
    }
}

/// The small number that a field holds, zero where the field is absent or holds none.
pub fn byte_field(data: &Vec<(String, String)>, key: &str) -> (b: u8)
    ensures
        b == byte_of(pairs_view(data@), key@),
{
    match find_last(data, key) {
        Some(t) => match parse_u8(t.as_str()) {
            Some(b) => b,
            None => 0,
        },
        None => 0,
    }
}

/// The instant that a field holds, `otherwise` where the field is absent or holds none.
pub fn instant_field(data: &Vec<(String, String)>, key: &str, otherwise: i64) -> (t: i64)
    ensures
        t == instant_of(pairs_view(data@), key@, otherwise),
{
    match find_last(data, key) {
        Some(text) => match parse_i64(text.as_str()) {
            Some(t) => t,
            None => otherwise,
        },
        None => otherwise,
    }
}

/// The instant that a field holds, nothing where the field is absent or empty.
pub fn optional_instant_field(data: &Vec<(String, String)>, key: &str) -> (t: Option<i64>)
    ensures
        t == optional_instant_of(pairs_view(data@), key@),
{
    match find_last(data, key) {
        Some(text) => if !text.as_str().is_empty() {
            parse_i64(text.as_str())
        } else {
            None
        },
        None => None,
    }
}

} // verus!
