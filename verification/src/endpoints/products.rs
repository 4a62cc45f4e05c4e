use vstd::prelude::*;

use crate::params::{opt_bool_entry, opt_i64_entry, opt_list_entries, push_opt_bool, push_opt_i64,
    push_opt_list};

verus! {

/// The query pairs of the product listing: `includeDeleted` when present,
/// then one pair per identifier, article, type, category and parent group.
pub fn products_list_params(
    include_deleted: Option<bool>,
    ids: &Option<Vec<String>>,
    nums: &Option<Vec<String>>,
    types: &Option<Vec<String>>,
    category_ids: &Option<Vec<String>>,
    parent_ids: &Option<Vec<String>>,
) -> (r: Vec<(String, String)>)
    ensures
        r.deep_view() == opt_bool_entry("includeDeleted"@, include_deleted) + opt_list_entries(
            "ids"@,
            ids.deep_view(),
        ) + opt_list_entries("nums"@, nums.deep_view()) + opt_list_entries(
            "types"@,
            types.deep_view(),
        ) + opt_list_entries("categoryIds"@, category_ids.deep_view()) + opt_list_entries(
            "parentIds"@,
            parent_ids.deep_view(),
        ),
{
    let mut params: Vec<(String, String)> = Vec::new();
    proof {
        assert(params.deep_view() =~= Seq::<(Seq<char>, Seq<char>)>::empty());
    }
    push_opt_bool(&mut params, "includeDeleted", &include_deleted);
    proof {
        assert(params.deep_view() =~= opt_bool_entry("includeDeleted"@, include_deleted));
    }
    push_opt_list(&mut params, "ids", ids);
    push_opt_list(&mut params, "nums", nums);
    push_opt_list(&mut params, "types", types);
    push_opt_list(&mut params, "categoryIds", category_ids);
    push_opt_list(&mut params, "parentIds", parent_ids);
    params
}

/// The form pairs of the product listing over POST: `includeDeleted` and
/// `revisionFrom` when present, then one pair per identifier, article,
/// code, type, category and parent group.
pub fn products_list_post_form(
    include_deleted: Option<bool>,
    revision_from: Option<i64>,
    ids: &Option<Vec<String>>,
    nums: &Option<Vec<String>>,
    codes: &Option<Vec<String>>,
    types: &Option<Vec<String>>,
    category_ids: &Option<Vec<String>>,
    parent_ids: &Option<Vec<String>>,
) -> (r: Vec<(String, String)>)
    ensures
        r.deep_view() == opt_bool_entry("includeDeleted"@, include_deleted) + opt_i64_entry(
            "revisionFrom"@,
            revision_from,
        ) + opt_list_entries("ids"@, ids.deep_view()) + opt_list_entries("nums"@, nums.deep_view())
            + opt_list_entries("codes"@, codes.deep_view()) + opt_list_entries(
            "types"@,
            types.deep_view(),
        ) + opt_list_entries("categoryIds"@, category_ids.deep_view()) + opt_list_entries(
            "parentIds"@,
            parent_ids.deep_view(),
        ),
{
    let mut params: Vec<(String, String)> = Vec::new();
    proof {
        assert(params.deep_view() =~= Seq::<(Seq<char>, Seq<char>)>::empty());
    }
    push_opt_bool(&mut params, "includeDeleted", &include_deleted);
    proof {
        assert(params.deep_view() =~= opt_bool_entry("includeDeleted"@, include_deleted));
    }
    push_opt_i64(&mut params, "revisionFrom", &revision_from);
    push_opt_list(&mut params, "ids", ids);
    push_opt_list(&mut params, "nums", nums);
    push_opt_list(&mut params, "codes", codes);
    push_opt_list(&mut params, "types", types);
    push_opt_list(&mut params, "categoryIds", category_ids);
    push_opt_list(&mut params, "parentIds", parent_ids);
    params
}

/// The query (or form) pairs of the category listings: `includeDeleted`
/// and one `ids` pair per category when present, then `revisionFrom`.
pub fn products_categories_params(
    include_deleted: Option<bool>,
    ids: &Option<Vec<String>>,
    revision_from: Option<i64>,
) -> (r: Vec<(String, String)>)
    ensures
        r.deep_view() == opt_bool_entry("includeDeleted"@, include_deleted) + opt_list_entries(
            "ids"@,
            ids.deep_view(),
        ) + opt_i64_entry("revisionFrom"@, revision_from),
{
    let mut params: Vec<(String, String)> = Vec::new();
    proof {
        assert(params.deep_view() =~= Seq::<(Seq<char>, Seq<char>)>::empty());
    }
    push_opt_bool(&mut params, "includeDeleted", &include_deleted);
    proof {
        assert(params.deep_view() =~= opt_bool_entry("includeDeleted"@, include_deleted));
    }
    push_opt_list(&mut params, "ids", ids);
    push_opt_i64(&mut params, "revisionFrom", &revision_from);
    params
}

} // verus!
