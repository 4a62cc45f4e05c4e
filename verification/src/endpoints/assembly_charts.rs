use vstd::prelude::*;

use crate::params::{opt_bool_entry, opt_entry, push_opt_bool, push_opt_str, push_pair};
use crate::text::{dec_int, i64_to_dec};

verus! {

/// The query pairs of the full chart listing: `dateFrom` always, then
/// `dateTo`, `includeDeletedProducts` and `includePreparedCharts` when
/// present.
pub fn assembly_charts_all_params(
    date_from: &str,
    date_to: Option<&str>,
    include_deleted_products: Option<bool>,
    include_prepared_charts: Option<bool>,
) -> (r: Vec<(String, String)>)
    ensures
        r.deep_view() == seq![("dateFrom"@, date_from@)] + opt_entry("dateTo"@, date_to.deep_view())
            + opt_bool_entry("includeDeletedProducts"@, include_deleted_products) + opt_bool_entry(
            "includePreparedCharts"@,
            include_prepared_charts,
        ),
{
    let mut params: Vec<(String, String)> = Vec::new();
    proof {
        assert(params.deep_view() =~= Seq::<(Seq<char>, Seq<char>)>::empty());
    }
    push_pair(&mut params, "dateFrom", date_from.to_owned());
    proof {
        assert(params.deep_view() =~= seq![("dateFrom"@, date_from@)]);
    }
    push_opt_str(&mut params, "dateTo", &date_to);
    push_opt_bool(&mut params, "includeDeletedProducts", &include_deleted_products);
    push_opt_bool(&mut params, "includePreparedCharts", &include_prepared_charts);
    params
}

/// The query pairs of the chart update listing: `knownRevision` and
/// `dateFrom` always, then `dateTo`, `includeDeletedProducts` and
/// `includePreparedCharts` when present.
pub fn assembly_charts_all_update_params(
    known_revision: i64,
    date_from: &str,
    date_to: Option<&str>,
    include_deleted_products: Option<bool>,
    include_prepared_charts: Option<bool>,
) -> (r: Vec<(String, String)>)
    ensures
        r.deep_view() == seq![
            ("knownRevision"@, dec_int(known_revision as int)),
            ("dateFrom"@, date_from@),
        ] + opt_entry("dateTo"@, date_to.deep_view()) + opt_bool_entry(
            "includeDeletedProducts"@,
            include_deleted_products,
        ) + opt_bool_entry("includePreparedCharts"@, include_prepared_charts),
{
    let mut params: Vec<(String, String)> = Vec::new();
    proof {
        assert(params.deep_view() =~= Seq::<(Seq<char>, Seq<char>)>::empty());
    }
    push_pair(&mut params, "knownRevision", i64_to_dec(known_revision));
    proof {
        assert(params.deep_view() =~= seq![("knownRevision"@, dec_int(known_revision as int))]);
    }
    push_pair(&mut params, "dateFrom", date_from.to_owned());
    proof {
        assert(params.deep_view() =~= seq![
            ("knownRevision"@, dec_int(known_revision as int)),
            ("dateFrom"@, date_from@),
        ]);
    }
    push_opt_str(&mut params, "dateTo", &date_to);
    push_opt_bool(&mut params, "includeDeletedProducts", &include_deleted_products);
    push_opt_bool(&mut params, "includePreparedCharts", &include_prepared_charts);
    params
}

/// The query pairs of the per-product chart lookups: the accounting day,
/// the product, and the department when one is given.
pub fn assembly_charts_tree_params(
    date: &str,
    product_id: &str,
    department_id: Option<&str>,
) -> (r: Vec<(String, String)>)
    ensures
        r.deep_view() == seq![("date"@, date@), ("productId"@, product_id@)] + opt_entry(
            "departmentId"@,
            department_id.deep_view(),
        ),
{
    let mut params: Vec<(String, String)> = Vec::new();
    proof {
        assert(params.deep_view() =~= Seq::<(Seq<char>, Seq<char>)>::empty());
    }
    push_pair(&mut params, "date", date.to_owned());
    proof {
        assert(params.deep_view() =~= seq![("date"@, date@)]);
    }
    push_pair(&mut params, "productId", product_id.to_owned());
    proof {
        assert(params.deep_view() =~= seq![("date"@, date@), ("productId"@, product_id@)]);
    }
    push_opt_str(&mut params, "departmentId", &department_id);
    params
}

/// The query pairs of the chart history: the product, and the department
/// when one is given.
pub fn assembly_charts_history_params(product_id: &str, department_id: Option<&str>) -> (r: Vec<
    (String, String),
>)
    ensures
        r.deep_view() == seq![("productId"@, product_id@)] + opt_entry(
            "departmentId"@,
            department_id.deep_view(),
        ),
{
    let mut params: Vec<(String, String)> = Vec::new();
    proof {
        assert(params.deep_view() =~= Seq::<(Seq<char>, Seq<char>)>::empty());
    }
    push_pair(&mut params, "productId", product_id.to_owned());
    proof {
        assert(params.deep_view() =~= seq![("productId"@, product_id@)]);
    }
    push_opt_str(&mut params, "departmentId", &department_id);
    params
}

} // verus!
