use vstd::prelude::*;

use crate::params::{opt_bool_entry, opt_entry, opt_i32_entry, opt_i64_entry, opt_list_entries,
    push_opt_bool, push_opt_i32, push_opt_i64, push_opt_list, push_opt_str, push_pair};
use crate::xml::response::reports::{spec_olap_report_v1_str, OlapReportTypeV1};

verus! {

/// The query pairs of the counteragent balance report: the accounting
/// timestamp, then one pair per account, counteragent and department
/// filter.
pub fn balance_counteragents_params(
    timestamp: &str,
    accounts: &Option<Vec<String>>,
    counteragents: &Option<Vec<String>>,
    departments: &Option<Vec<String>>,
) -> (r: Vec<(String, String)>)
    ensures
        r.deep_view() == seq![("timestamp"@, timestamp@)] + opt_list_entries(
            "account"@,
            accounts.deep_view(),
        ) + opt_list_entries("counteragent"@, counteragents.deep_view()) + opt_list_entries(
            "department"@,
            departments.deep_view(),
        ),
{
    let mut params: Vec<(String, String)> = Vec::new();
    proof {
        assert(params.deep_view() =~= Seq::<(Seq<char>, Seq<char>)>::empty());
    }
    push_pair(&mut params, "timestamp", timestamp.to_owned());
    proof {
        assert(params.deep_view() =~= seq![("timestamp"@, timestamp@)]);
    }
    push_opt_list(&mut params, "account", accounts);
    push_opt_list(&mut params, "counteragent", counteragents);
    push_opt_list(&mut params, "department", departments);
    params
}

/// The query pairs of the store balance report: the accounting timestamp,
/// then one pair per department, store and product filter.
pub fn balance_stores_params(
    timestamp: &str,
    departments: &Option<Vec<String>>,
    stores: &Option<Vec<String>>,
    products: &Option<Vec<String>>,
) -> (r: Vec<(String, String)>)
    ensures
        r.deep_view() == seq![("timestamp"@, timestamp@)] + opt_list_entries(
            "department"@,
            departments.deep_view(),
        ) + opt_list_entries("store"@, stores.deep_view()) + opt_list_entries(
            "product"@,
            products.deep_view(),
        ),
{
    let mut params: Vec<(String, String)> = Vec::new();
    proof {
        assert(params.deep_view() =~= Seq::<(Seq<char>, Seq<char>)>::empty());
    }
    push_pair(&mut params, "timestamp", timestamp.to_owned());
    proof {
        assert(params.deep_view() =~= seq![("timestamp"@, timestamp@)]);
    }
    push_opt_list(&mut params, "department", departments);
    push_opt_list(&mut params, "store", stores);
    push_opt_list(&mut params, "product", products);
    params
}

/// The query pairs of the excise-mark balance report: one `fsRarId` pair
/// per organisation, and `revisionFrom` when a revision is given.
pub fn egais_marks_list_params(
    fs_rar_ids: &Option<Vec<String>>,
    revision_from: Option<i64>,
) -> (r: Vec<(String, String)>)
    ensures
        r.deep_view() == opt_list_entries("fsRarId"@, fs_rar_ids.deep_view()) + opt_i64_entry(
            "revisionFrom"@,
            revision_from,
        ),
{
    let mut params: Vec<(String, String)> = Vec::new();
    proof {
        assert(params.deep_view() =~= Seq::<(Seq<char>, Seq<char>)>::empty());
    }
    push_opt_list(&mut params, "fsRarId", fs_rar_ids);
    proof {
        assert(params.deep_view() =~= opt_list_entries("fsRarId"@, fs_rar_ids.deep_view()));
    }
    push_opt_i64(&mut params, "revisionFrom", &revision_from);
    params
}

/// The query pairs of the first-version OLAP report: the report kind under
/// its wire name, the date range, then `summary` and the grouping and
/// aggregation fields.
pub fn olap_report_v1_params(
    report: OlapReportTypeV1,
    from: &str,
    to: &str,
    summary: Option<bool>,
    group_row: &Option<Vec<String>>,
    group_col: &Option<Vec<String>>,
    agr: &Option<Vec<String>>,
) -> (r: Vec<(String, String)>)
    ensures
        r.deep_view() == seq![
            ("report"@, spec_olap_report_v1_str(report)),
            ("from"@, from@),
            ("to"@, to@),
        ] + opt_bool_entry("summary"@, summary) + opt_list_entries(
            "groupRow"@,
            group_row.deep_view(),
        ) + opt_list_entries("groupCol"@, group_col.deep_view()) + opt_list_entries(
            "agr"@,
            agr.deep_view(),
        ),
{
    let mut params: Vec<(String, String)> = Vec::new();
    proof {
        assert(params.deep_view() =~= Seq::<(Seq<char>, Seq<char>)>::empty());
    }
    push_pair(&mut params, "report", report.as_str().to_owned());
    proof {
        assert(params.deep_view() =~= seq![("report"@, spec_olap_report_v1_str(report))]);
    }
    push_pair(&mut params, "from", from.to_owned());
    proof {
        assert(params.deep_view() =~= seq![
            ("report"@, spec_olap_report_v1_str(report)),
            ("from"@, from@),
        ]);
    }
    push_pair(&mut params, "to", to.to_owned());
    proof {
        assert(params.deep_view() =~= seq![
            ("report"@, spec_olap_report_v1_str(report)),
            ("from"@, from@),
            ("to"@, to@),
        ]);
    }
    push_opt_bool(&mut params, "summary", &summary);
    push_opt_list(&mut params, "groupRow", group_row);
    push_opt_list(&mut params, "groupCol", group_col);
    push_opt_list(&mut params, "agr", agr);
    params
}

/// The leading `dateFrom`/`dateTo` pairs shared by the delivery reports.
pub open spec fn date_range_entries(from: Seq<char>, to: Seq<char>) -> Seq<
    (Seq<char>, Seq<char>),
> {
    seq![("dateFrom"@, from), ("dateTo"@, to)]
}

fn date_range_params(date_from: &str, date_to: &str) -> (r: Vec<(String, String)>)
    ensures
        r.deep_view() == date_range_entries(date_from@, date_to@),
{
    let mut params: Vec<(String, String)> = Vec::new();
    proof {
        assert(params.deep_view() =~= Seq::<(Seq<char>, Seq<char>)>::empty());
    }
    push_pair(&mut params, "dateFrom", date_from.to_owned());
    proof {
        assert(params.deep_view() =~= seq![("dateFrom"@, date_from@)]);
    }
    push_pair(&mut params, "dateTo", date_to.to_owned());
    proof {
        assert(params.deep_view() =~= date_range_entries(date_from@, date_to@));
    }
    params
}

/// The query pairs of the consolidated delivery report: the date range,
/// then one pair per department and write-off account filter.
pub fn delivery_consolidated_params(
    date_from: &str,
    date_to: &str,
    departments: &Option<Vec<String>>,
    writeoff_accounts: &Option<Vec<String>>,
) -> (r: Vec<(String, String)>)
    ensures
        r.deep_view() == date_range_entries(date_from@, date_to@) + opt_list_entries(
            "department"@,
            departments.deep_view(),
        ) + opt_list_entries("writeoffAccounts"@, writeoff_accounts.deep_view()),
{
    let mut params = date_range_params(date_from, date_to);
    push_opt_list(&mut params, "department", departments);
    push_opt_list(&mut params, "writeoffAccounts", writeoff_accounts);
    params
}

/// The query pairs of the courier delivery report: the date range, the
/// department filters, then the five target figures when present.
pub fn delivery_couriers_params(
    date_from: &str,
    date_to: &str,
    departments: &Option<Vec<String>>,
    target_common_time: Option<i32>,
    target_on_the_way_time: Option<i32>,
    target_doubled_orders: Option<i32>,
    target_tripled_orders: Option<i32>,
    target_total_orders: Option<i32>,
) -> (r: Vec<(String, String)>)
    ensures
        r.deep_view() == date_range_entries(date_from@, date_to@) + opt_list_entries(
            "department"@,
            departments.deep_view(),
        ) + opt_i32_entry("targetCommonTime"@, target_common_time) + opt_i32_entry(
            "targetOnTheWayTime"@,
            target_on_the_way_time,
        ) + opt_i32_entry("targetDoubledOrders"@, target_doubled_orders) + opt_i32_entry(
            "targetTripledOrders"@,
            target_tripled_orders,
        ) + opt_i32_entry("targetTotalOrders"@, target_total_orders),
{
    let mut params = date_range_params(date_from, date_to);
    push_opt_list(&mut params, "department", departments);
    push_opt_i32(&mut params, "targetCommonTime", &target_common_time);
    push_opt_i32(&mut params, "targetOnTheWayTime", &target_on_the_way_time);
    push_opt_i32(&mut params, "targetDoubledOrders", &target_doubled_orders);
    push_opt_i32(&mut params, "targetTripledOrders", &target_tripled_orders);
    push_opt_i32(&mut params, "targetTotalOrders", &target_total_orders);
    params
}

/// The query pairs of the order-cycle delivery report: the date range, the
/// department filters, then the six target figures when present.
pub fn delivery_order_cycle_params(
    date_from: &str,
    date_to: &str,
    departments: &Option<Vec<String>>,
    target_pizza_time: Option<i32>,
    target_cutting_time: Option<i32>,
    target_on_shelf_time: Option<i32>,
    target_in_restaurant_time: Option<i32>,
    target_on_the_way_time: Option<i32>,
    target_total_time: Option<i32>,
) -> (r: Vec<(String, String)>)
    ensures
        r.deep_view() == date_range_entries(date_from@, date_to@) + opt_list_entries(
            "department"@,
            departments.deep_view(),
        ) + opt_i32_entry("targetPizzaTime"@, target_pizza_time) + opt_i32_entry(
            "targetCuttingTime"@,
            target_cutting_time,
        ) + opt_i32_entry("targetOnShelfTime"@, target_on_shelf_time) + opt_i32_entry(
            "targetInRestaurantTime"@,
            target_in_restaurant_time,
        ) + opt_i32_entry("targetOnTheWayTime"@, target_on_the_way_time) + opt_i32_entry(
            "targetTotalTime"@,
            target_total_time,
        ),
{
    let mut params = date_range_params(date_from, date_to);
    push_opt_list(&mut params, "department", departments);
    push_opt_i32(&mut params, "targetPizzaTime", &target_pizza_time);
    push_opt_i32(&mut params, "targetCuttingTime", &target_cutting_time);
    push_opt_i32(&mut params, "targetOnShelfTime", &target_on_shelf_time);
    push_opt_i32(&mut params, "targetInRestaurantTime", &target_in_restaurant_time);
    push_opt_i32(&mut params, "targetOnTheWayTime", &target_on_the_way_time);
    push_opt_i32(&mut params, "targetTotalTime", &target_total_time);
    params
}

/// The query pairs of the delivery reports that take only the date range
/// and department filters.
pub fn delivery_date_range_params(
    date_from: &str,
    date_to: &str,
    departments: &Option<Vec<String>>,
) -> (r: Vec<(String, String)>)
    ensures
        r.deep_view() == date_range_entries(date_from@, date_to@) + opt_list_entries(
            "department"@,
            departments.deep_view(),
        ),
{
    let mut params = date_range_params(date_from, date_to);
    push_opt_list(&mut params, "department", departments);
    params
}

/// The query pairs of the delivery loyalty report: the date range, the
/// department filters, and the metric kind when one is given.
pub fn delivery_loyalty_params(
    date_from: &str,
    date_to: &str,
    departments: &Option<Vec<String>>,
    metric_type: Option<&str>,
) -> (r: Vec<(String, String)>)
    ensures
        r.deep_view() == date_range_entries(date_from@, date_to@) + opt_list_entries(
            "department"@,
            departments.deep_view(),
        ) + opt_entry("metricType"@, metric_type.deep_view()),
{
    let mut params = date_range_params(date_from, date_to);
    push_opt_list(&mut params, "department", departments);
    push_opt_str(&mut params, "metricType", &metric_type);
    params
}

/// The query pairs of the store operations report: the date range, the
/// store and document-type filters, the two boolean switches, and the
/// preset when one is given.
pub fn store_operations_params(
    date_from: &str,
    date_to: &str,
    stores: &Option<Vec<String>>,
    document_types: &Option<Vec<String>>,
    product_detalization: Option<bool>,
    show_cost_corrections: Option<bool>,
    preset_id: Option<&str>,
) -> (r: Vec<(String, String)>)
    ensures
        r.deep_view() == date_range_entries(date_from@, date_to@) + opt_list_entries(
            "stores"@,
            stores.deep_view(),
        ) + opt_list_entries("documentTypes"@, document_types.deep_view()) + opt_bool_entry(
            "productDetalization"@,
            product_detalization,
        ) + opt_bool_entry("showCostCorrections"@, show_cost_corrections) + opt_entry(
            "presetId"@,
            preset_id.deep_view(),
        ),
{
    let mut params = date_range_params(date_from, date_to);
    push_opt_list(&mut params, "stores", stores);
    push_opt_list(&mut params, "documentTypes", document_types);
    push_opt_bool(&mut params, "productDetalization", &product_detalization);
    push_opt_bool(&mut params, "showCostCorrections", &show_cost_corrections);
    push_opt_str(&mut params, "presetId", &preset_id);
    params
}

/// The query pairs of the product expense report: the department and date
/// range, then the hour bounds when present.
pub fn product_expense_params(
    department: &str,
    date_from: &str,
    date_to: &str,
    hour_from: Option<i32>,
    hour_to: Option<i32>,
) -> (r: Vec<(String, String)>)
    ensures
        r.deep_view() == seq![("department"@, department@)] + date_range_entries(
            date_from@,
            date_to@,
        ) + opt_i32_entry("hourFrom"@, hour_from) + opt_i32_entry("hourTo"@, hour_to),
{
    let mut params: Vec<(String, String)> = Vec::new();
    proof {
        assert(params.deep_view() =~= Seq::<(Seq<char>, Seq<char>)>::empty());
    }
    push_pair(&mut params, "department", department.to_owned());
    proof {
        assert(params.deep_view() =~= seq![("department"@, department@)]);
    }
    push_pair(&mut params, "dateFrom", date_from.to_owned());
    push_pair(&mut params, "dateTo", date_to.to_owned());
    proof {
        assert(params.deep_view() =~= seq![("department"@, department@)] + date_range_entries(
            date_from@,
            date_to@,
        ));
    }
    push_opt_i32(&mut params, "hourFrom", &hour_from);
    push_opt_i32(&mut params, "hourTo", &hour_to);
    params
}

/// The query pairs of the sales report: the department and date range, the
/// hour bounds, and the two boolean switches when present.
pub fn sales_params(
    department: &str,
    date_from: &str,
    date_to: &str,
    hour_from: Option<i32>,
    hour_to: Option<i32>,
    dish_details: Option<bool>,
    all_revenue: Option<bool>,
) -> (r: Vec<(String, String)>)
    ensures
        r.deep_view() == seq![("department"@, department@)] + date_range_entries(
            date_from@,
            date_to@,
        ) + opt_i32_entry("hourFrom"@, hour_from) + opt_i32_entry("hourTo"@, hour_to)
            + opt_bool_entry("dishDetails"@, dish_details) + opt_bool_entry(
            "allRevenue"@,
            all_revenue,
        ),
{
    let mut params: Vec<(String, String)> = Vec::new();
    proof {
        assert(params.deep_view() =~= Seq::<(Seq<char>, Seq<char>)>::empty());
    }
    push_pair(&mut params, "department", department.to_owned());
    proof {
        assert(params.deep_view() =~= seq![("department"@, department@)]);
    }
    push_pair(&mut params, "dateFrom", date_from.to_owned());
    push_pair(&mut params, "dateTo", date_to.to_owned());
    proof {
        assert(params.deep_view() =~= seq![("department"@, department@)] + date_range_entries(
            date_from@,
            date_to@,
        ));
    }
    push_opt_i32(&mut params, "hourFrom", &hour_from);
    push_opt_i32(&mut params, "hourTo", &hour_to);
    push_opt_bool(&mut params, "dishDetails", &dish_details);
    push_opt_bool(&mut params, "allRevenue", &all_revenue);
    params
}

/// The query pairs of the ingredient entry report: the department and
/// date, then the product, article and subtree switch when present.
pub fn ingredient_entry_params(
    department: &str,
    date: &str,
    product: Option<&str>,
    product_article: Option<&str>,
    include_subtree: Option<bool>,
) -> (r: Vec<(String, String)>)
    ensures
        r.deep_view() == seq![("department"@, department@), ("date"@, date@)] + opt_entry(
            "product"@,
            product.deep_view(),
        ) + opt_entry("productArticle"@, product_article.deep_view()) + opt_bool_entry(
            "includeSubtree"@,
            include_subtree,
        ),
{
    let mut params: Vec<(String, String)> = Vec::new();
    proof {
        assert(params.deep_view() =~= Seq::<(Seq<char>, Seq<char>)>::empty());
    }
    push_pair(&mut params, "department", department.to_owned());
    proof {
        assert(params.deep_view() =~= seq![("department"@, department@)]);
    }
    push_pair(&mut params, "date", date.to_owned());
    proof {
        assert(params.deep_view() =~= seq![("department"@, department@), ("date"@, date@)]);
    }
    push_opt_str(&mut params, "product", &product);
    push_opt_str(&mut params, "productArticle", &product_article);
    push_opt_bool(&mut params, "includeSubtree", &include_subtree);
    params
}

} // verus!
