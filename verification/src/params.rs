use vstd::prelude::*;

use crate::text::{bool_seq, bool_str, dec_int, i32_to_dec, i64_to_dec};

verus! {

// ---------------------------------------------------------------------------
// Spec-level shapes of query-parameter lists
// ---------------------------------------------------------------------------

/// The singleton entry for a present value, nothing for an absent one.
pub open spec fn opt_entry(key: Seq<char>, value: Option<Seq<char>>) -> Seq<
    (Seq<char>, Seq<char>),
> {
    match value {
        Some(s) => seq![(key, s)],
        None => seq![],
    }
}

/// The entry for an optional boolean, rendered `true` or `false`.
pub open spec fn opt_bool_entry(key: Seq<char>, value: Option<bool>) -> Seq<
    (Seq<char>, Seq<char>),
> {
    match value {
        Some(b) => seq![(key, bool_seq(b))],
        None => seq![],
    }
}

/// The entry for an optional 64-bit integer, rendered in decimal.
pub open spec fn opt_i64_entry(key: Seq<char>, value: Option<i64>) -> Seq<
    (Seq<char>, Seq<char>),
> {
    match value {
        Some(v) => seq![(key, dec_int(v as int))],
        None => seq![],
    }
}

/// The entry for an optional 32-bit integer, rendered in decimal.
pub open spec fn opt_i32_entry(key: Seq<char>, value: Option<i32>) -> Seq<
    (Seq<char>, Seq<char>),
> {
    match value {
        Some(v) => seq![(key, dec_int(v as int))],
        None => seq![],
    }
}

/// One entry per item, each under the same key, in order.
pub open spec fn list_entries(key: Seq<char>, items: Seq<Seq<char>>) -> Seq<
    (Seq<char>, Seq<char>),
> {
    items.map_values(|s: Seq<char>| (key, s))
}

/// The entries for an optional list: one per item when present, nothing
/// otherwise.
pub open spec fn opt_list_entries(key: Seq<char>, items: Option<Seq<Seq<char>>>) -> Seq<
    (Seq<char>, Seq<char>),
> {
    match items {
        Some(list) => list_entries(key, list),
        None => seq![],
    }
}

// ---------------------------------------------------------------------------
// Builders
// ---------------------------------------------------------------------------

/// Append one key/value pair.
pub fn push_pair(params: &mut Vec<(String, String)>, key: &str, value: String)
    ensures
        final(params).deep_view() == old(params).deep_view() + seq![(key@, value@)],
{
    let ghost pre_deep = params.deep_view();
    let ghost pre_shallow = params@;
    let ghost valv = value@;
    params.push((key.to_owned(), value));
    proof {
        assert forall|j: int| 0 <= j < pre_deep.len() implies params.deep_view()[j]
            == pre_deep[j] by {
            assert(params@[j] == pre_shallow[j]);
        }
        assert(params.deep_view()[pre_deep.len() as int] == (key@, valv));
        assert(params.deep_view() =~= pre_deep + seq![(key@, valv)]);
    }
}

/// Append the pair for a present string, nothing for an absent one.
pub fn push_opt(params: &mut Vec<(String, String)>, key: &str, value: &Option<String>)
    ensures
        final(params).deep_view() == old(params).deep_view() + opt_entry(key@, value.deep_view()),
{
    match value {
        Some(s) => push_pair(params, key, s.clone()),
        None => {
            proof {
                assert(params.deep_view() =~= params.deep_view() + opt_entry(
                    key@,
                    value.deep_view(),
                ));
            }
        },
    }
}

/// Append the pair for a present string slice, nothing for an absent one.
pub fn push_opt_str(params: &mut Vec<(String, String)>, key: &str, value: &Option<&str>)
    ensures
        final(params).deep_view() == old(params).deep_view() + opt_entry(key@, value.deep_view()),
{
    match value {
        Some(s) => push_pair(params, key, (*s).to_owned()),
        None => {
            proof {
                assert(params.deep_view() =~= params.deep_view() + opt_entry(
                    key@,
                    value.deep_view(),
                ));
            }
        },
    }
}

/// Append the pair for a present boolean, rendered `true` or `false`.
pub fn push_opt_bool(params: &mut Vec<(String, String)>, key: &str, value: &Option<bool>)
    ensures
        final(params).deep_view() == old(params).deep_view() + opt_bool_entry(key@, *value),
{
    match value {
        Some(b) => push_pair(params, key, bool_str(*b).to_owned()),
        None => {
            proof {
                assert(params.deep_view() =~= params.deep_view() + opt_bool_entry(key@, *value));
            }
        },
    }
}

/// Append the pair for a present 64-bit integer, rendered in decimal.
pub fn push_opt_i64(params: &mut Vec<(String, String)>, key: &str, value: &Option<i64>)
    ensures
        final(params).deep_view() == old(params).deep_view() + opt_i64_entry(key@, *value),
{
    match value {
        Some(v) => push_pair(params, key, i64_to_dec(*v)),
        None => {
            proof {
                assert(params.deep_view() =~= params.deep_view() + opt_i64_entry(key@, *value));
            }
        },
    }
}

/// Append the pair for a present 32-bit integer, rendered in decimal.
pub fn push_opt_i32(params: &mut Vec<(String, String)>, key: &str, value: &Option<i32>)
    ensures
        final(params).deep_view() == old(params).deep_view() + opt_i32_entry(key@, *value),
{
    match value {
        Some(v) => push_pair(params, key, i32_to_dec(*v)),
        None => {
            proof {
                assert(params.deep_view() =~= params.deep_view() + opt_i32_entry(key@, *value));
            }
        },
    }
}

/// Append one pair per item, each under the same key, in order.
pub fn push_list(params: &mut Vec<(String, String)>, key: &str, items: &Vec<String>)
    ensures
        final(params).deep_view() == old(params).deep_view() + list_entries(
            key@,
            items.deep_view(),
        ),
{
    let ghost pre = params.deep_view();
    let n = items.len();
    let mut i: usize = 0;
    while i < n
        invariant
            i <= n,
            n == items.len(),
            params.deep_view() =~= pre + list_entries(key@, items.deep_view().subrange(
                0,
                i as int,
            )),
        decreases n - i,
    {
        push_pair(params, key, items[i].clone());
        proof {
            assert(items.deep_view().subrange(0, i + 1) =~= items.deep_view().subrange(0, i as int)
                + seq![items.deep_view()[i as int]]);
            assert(list_entries(key@, items.deep_view().subrange(0, i + 1)) =~= list_entries(
                key@,
                items.deep_view().subrange(0, i as int),
            ) + seq![(key@, items.deep_view()[i as int])]);
            assert(params.deep_view() =~= pre + list_entries(key@, items.deep_view().subrange(
                0,
                i + 1,
            )));
        }
        i = i + 1;
    }
    proof {
        assert(items.deep_view().subrange(0, n as int) =~= items.deep_view());
    }
}

/// Append the pairs for an optional list: one per item when present.
pub fn push_opt_list(params: &mut Vec<(String, String)>, key: &str, items: &Option<Vec<String>>)
    ensures
        final(params).deep_view() == old(params).deep_view() + opt_list_entries(
            key@,
            items.deep_view(),
        ),
{
    match items {
        Some(list) => push_list(params, key, list),
        None => {
            proof {
                assert(params.deep_view() =~= params.deep_view() + opt_list_entries(
                    key@,
                    items.deep_view(),
                ));
            }
        },
    }
}

} // verus!
