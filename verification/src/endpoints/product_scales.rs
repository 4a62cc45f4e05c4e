use vstd::prelude::*;

use crate::params::{opt_bool_entry, opt_list_entries, push_opt_bool, push_opt_list};

verus! {

/// The query pairs of the size-scale listing: `includeDeleted` when
/// present, then one `ids` pair per scale identifier.
pub fn product_scales_list_params(
    include_deleted: Option<bool>,
    ids: &Option<Vec<String>>,
) -> (r: Vec<(String, String)>)
    ensures
        r.deep_view() == opt_bool_entry("includeDeleted"@, include_deleted) + opt_list_entries(
            "ids"@,
            ids.deep_view(),
        ),
{
    let mut params: Vec<(String, String)> = Vec::new();
    proof {
        assert(params.deep_view() =~= Seq::<(Seq<char>, Seq<char>)>::empty());
    }
    push_opt_bool(&mut params, "includeDeleted", &include_deleted);
    proof {
        assert(params.deep_view() =~= opt_bool_entry("includeDeleted"@, include_deleted));
    }
    push_opt_list(&mut params, "ids", ids);
    params
}

/// The query pairs of the per-product scale lookup:
/// `includeDeletedProducts` when present, then one `productId` pair per
/// product identifier.
pub fn scales_for_products_params(
    include_deleted_products: Option<bool>,
    product_ids: &Option<Vec<String>>,
) -> (r: Vec<(String, String)>)
    ensures
        r.deep_view() == opt_bool_entry("includeDeletedProducts"@, include_deleted_products)
            + opt_list_entries("productId"@, product_ids.deep_view()),
{
    let mut params: Vec<(String, String)> = Vec::new();
    proof {
        assert(params.deep_view() =~= Seq::<(Seq<char>, Seq<char>)>::empty());
    }
    push_opt_bool(&mut params, "includeDeletedProducts", &include_deleted_products);
    proof {
        assert(params.deep_view() =~= opt_bool_entry(
            "includeDeletedProducts"@,
            include_deleted_products,
        ));
    }
    push_opt_list(&mut params, "productId", product_ids);
    params
}

} // verus!
