use iiko_server_api_sdk::endpoints::assembly_charts::{assembly_charts_all_params,
    assembly_charts_all_update_params, assembly_charts_history_params, assembly_charts_tree_params};
use iiko_server_api_sdk::endpoints::corporation::{corporation_revision_params,
    corporation_search_groups_params, corporation_search_terminals_params};
use iiko_server_api_sdk::endpoints::documents::{export_outgoing_invoice_by_number_params,
    export_outgoing_invoice_params};
use iiko_server_api_sdk::endpoints::employees::{employees_by_department_params,
    employees_list_params, employees_search_params};
use iiko_server_api_sdk::endpoints::entities::entities_list_params;
use iiko_server_api_sdk::endpoints::events::{events_params, sessions_params};
use iiko_server_api_sdk::endpoints::product_scales::{product_scales_list_params,
    scales_for_products_params};
use iiko_server_api_sdk::endpoints::products::{products_categories_params, products_list_params,
    products_list_post_form};
use iiko_server_api_sdk::endpoints::reports::{balance_counteragents_params, balance_stores_params,
    delivery_consolidated_params, delivery_couriers_params, delivery_date_range_params,
    delivery_loyalty_params, delivery_order_cycle_params, egais_marks_list_params,
    ingredient_entry_params, olap_report_v1_params, product_expense_params, sales_params,
    store_operations_params};
use iiko_server_api_sdk::endpoints::suppliers::{suppliers_list_params, suppliers_search_params};
use iiko_server_api_sdk::xml::response::replication::parse_server_type;
use iiko_server_api_sdk::{EntityType, IikoError, OlapReportTypeV1, ServerType};

fn pairs(v: &[(&str, &str)]) -> Vec<(String, String)> {
    v.iter().map(|(k, val)| (k.to_string(), val.to_string())).collect()
}

fn strings(v: &[&str]) -> Vec<String> {
    v.iter().map(|s| s.to_string()).collect()
}

#[test]
fn employees_list_keeps_only_present_fields() {
    assert_eq!(employees_list_params(None, None), pairs(&[]));
    assert_eq!(
        employees_list_params(Some(true), None),
        pairs(&[("includeDeleted", "true")])
    );
    assert_eq!(
        employees_list_params(Some(false), Some(-1)),
        pairs(&[("includeDeleted", "false"), ("revisionFrom", "-1")])
    );
    assert_eq!(
        employees_by_department_params(Some(true)),
        pairs(&[("includeDeleted", "true")])
    );
}

#[test]
fn employees_search_keeps_field_order() {
    let params = employees_search_params(
        None,
        Some("42"),
        None,
        Some(false),
        None,
        Some("a@b.c"),
        None,
        Some("Ann"),
        None,
        None,
        None,
        None,
        None,
        None,
        None,
        Some(true),
        Some(true),
    );
    assert_eq!(
        params,
        pairs(&[
            ("cardNumber", "42"),
            ("client", "false"),
            ("email", "a@b.c"),
            ("firstName", "Ann"),
            ("supplier", "true"),
            ("includeDeleted", "true"),
        ])
    );
}

#[test]
fn suppliers_params_render_revision_and_fields() {
    assert_eq!(
        suppliers_list_params(Some(-1)),
        pairs(&[("revisionFrom", "-1")])
    );
    assert_eq!(suppliers_list_params(None), pairs(&[]));
    let params = suppliers_search_params(
        Some("ACME"),
        None,
        None,
        None,
        None,
        None,
        None,
        None,
        None,
        Some("7701"),
    );
    assert_eq!(
        params,
        pairs(&[("name", "ACME"), ("taxpayerIdNumber", "7701")])
    );
}

#[test]
fn products_list_repeats_list_keys() {
    let params = products_list_params(
        Some(true),
        &Some(strings(&["i1", "i2"])),
        &None,
        &Some(strings(&["DISH"])),
        &None,
        &None,
    );
    assert_eq!(
        params,
        pairs(&[
            ("includeDeleted", "true"),
            ("ids", "i1"),
            ("ids", "i2"),
            ("types", "DISH"),
        ])
    );
}

#[test]
fn products_list_post_includes_revision() {
    let params = products_list_post_form(
        None,
        Some(7),
        &None,
        &None,
        &Some(strings(&["c1"])),
        &None,
        &None,
        &None,
    );
    assert_eq!(params, pairs(&[("revisionFrom", "7"), ("codes", "c1")]));
}

#[test]
fn product_scales_params() {
    assert_eq!(
        product_scales_list_params(Some(false), &Some(strings(&["s1"]))),
        pairs(&[("includeDeleted", "false"), ("ids", "s1")])
    );
    assert_eq!(
        scales_for_products_params(None, &Some(strings(&["p1", "p2"]))),
        pairs(&[("productId", "p1"), ("productId", "p2")])
    );
}

#[test]
fn corporation_revision_defaults_to_minus_one() {
    assert_eq!(
        corporation_revision_params(None),
        pairs(&[("revisionFrom", "-1")])
    );
    assert_eq!(
        corporation_revision_params(Some(250)),
        pairs(&[("revisionFrom", "250")])
    );
}

#[test]
fn corporation_search_params() {
    assert_eq!(
        corporation_search_groups_params(Some("Hall"), None),
        pairs(&[("name", "Hall")])
    );
    assert_eq!(
        corporation_search_terminals_params(None, Some("pos-1"), Some(false)),
        pairs(&[("computerName", "pos-1"), ("anonymous", "false")])
    );
}

#[test]
fn events_and_sessions_params() {
    assert_eq!(
        events_params(Some("2024-01-01T00:00:00.000"), None, Some(12)),
        pairs(&[("from_time", "2024-01-01T00:00:00.000"), ("from_rev", "12")])
    );
    assert_eq!(
        sessions_params(None, Some("2024-02-01T00:00:00.000")),
        pairs(&[("to_time", "2024-02-01T00:00:00.000")])
    );
}

#[test]
fn document_export_params() {
    assert_eq!(
        export_outgoing_invoice_params("2024-01-01", "2024-01-31", Some("sup")),
        pairs(&[("from", "2024-01-01"), ("to", "2024-01-31"), ("supplierId", "sup")])
    );
    // With current_year set, the date bounds are left out even when given.
    assert_eq!(
        export_outgoing_invoice_by_number_params("N-1", true, Some("2024-01-01"), None),
        pairs(&[("number", "N-1"), ("currentYear", "true")])
    );
    assert_eq!(
        export_outgoing_invoice_by_number_params("N-1", false, Some("2024-01-01"), Some("2024-02-01")),
        pairs(&[
            ("number", "N-1"),
            ("currentYear", "false"),
            ("from", "2024-01-01"),
            ("to", "2024-02-01"),
        ])
    );
}

#[test]
fn entities_list_renders_root_types() {
    let params = entities_list_params(
        &vec![EntityType::Account, EntityType::MeasureUnit],
        Some(true),
        Some(-1),
    );
    assert_eq!(
        params,
        pairs(&[
            ("rootType", "Account"),
            ("rootType", "MeasureUnit"),
            ("includeDeleted", "true"),
            ("revisionFrom", "-1"),
        ])
    );
}

#[test]
fn entity_type_wire_names() {
    assert_eq!(EntityType::Account.as_str(), "Account");
    assert_eq!(EntityType::AccountingCategory.as_str(), "AccountingCategory");
    assert_eq!(EntityType::TaxCategory.as_str(), "TaxCategory");
    assert_eq!(EntityType::ProductScale.as_str(), "ProductScale");
}

#[test]
fn olap_report_v1_wire_names() {
    assert_eq!(OlapReportTypeV1::Sales.as_str(), "SALES");
    assert_eq!(OlapReportTypeV1::Transactions.as_str(), "TRANSACTIONS");
    assert_eq!(OlapReportTypeV1::Deliveries.as_str(), "DELIVERIES");
    assert_eq!(OlapReportTypeV1::Stock.as_str(), "STOCK");
}

#[test]
fn olap_report_v1_params_lead_with_the_report() {
    let params = olap_report_v1_params(
        OlapReportTypeV1::Sales,
        "01.12.2014",
        "18.12.2014",
        Some(true),
        &Some(strings(&["WaiterName", "OpenTime"])),
        &None,
        &Some(strings(&["fullSum"])),
    );
    assert_eq!(
        params,
        pairs(&[
            ("report", "SALES"),
            ("from", "01.12.2014"),
            ("to", "18.12.2014"),
            ("summary", "true"),
            ("groupRow", "WaiterName"),
            ("groupRow", "OpenTime"),
            ("agr", "fullSum"),
        ])
    );
}

#[test]
fn balance_report_params() {
    assert_eq!(
        balance_counteragents_params(
            "2024-03-01T00:00:00",
            &Some(strings(&["acc1"])),
            &None,
            &Some(strings(&["d1", "d2"])),
        ),
        pairs(&[
            ("timestamp", "2024-03-01T00:00:00"),
            ("account", "acc1"),
            ("department", "d1"),
            ("department", "d2"),
        ])
    );
    assert_eq!(
        balance_stores_params("t", &None, &Some(strings(&["s1"])), &None),
        pairs(&[("timestamp", "t"), ("store", "s1")])
    );
}

#[test]
fn egais_marks_params() {
    assert_eq!(
        egais_marks_list_params(&Some(strings(&["r1"])), Some(-1)),
        pairs(&[("fsRarId", "r1"), ("revisionFrom", "-1")])
    );
}

#[test]
fn delivery_report_params() {
    assert_eq!(
        delivery_consolidated_params("a", "b", &Some(strings(&["d"])), &None),
        pairs(&[("dateFrom", "a"), ("dateTo", "b"), ("department", "d")])
    );
    assert_eq!(
        delivery_couriers_params("a", "b", &None, Some(60), None, None, None, Some(5)),
        pairs(&[
            ("dateFrom", "a"),
            ("dateTo", "b"),
            ("targetCommonTime", "60"),
            ("targetTotalOrders", "5"),
        ])
    );
    assert_eq!(
        delivery_order_cycle_params("a", "b", &None, None, Some(3), None, None, None, None),
        pairs(&[("dateFrom", "a"), ("dateTo", "b"), ("targetCuttingTime", "3")])
    );
    assert_eq!(
        delivery_date_range_params("a", "b", &Some(strings(&["d1"]))),
        pairs(&[("dateFrom", "a"), ("dateTo", "b"), ("department", "d1")])
    );
    assert_eq!(
        delivery_loyalty_params("a", "b", &None, Some("AVERAGE")),
        pairs(&[("dateFrom", "a"), ("dateTo", "b"), ("metricType", "AVERAGE")])
    );
}

#[test]
fn store_and_sales_report_params() {
    assert_eq!(
        store_operations_params(
            "a",
            "b",
            &Some(strings(&["s1"])),
            &None,
            Some(true),
            None,
            Some("preset"),
        ),
        pairs(&[
            ("dateFrom", "a"),
            ("dateTo", "b"),
            ("stores", "s1"),
            ("productDetalization", "true"),
            ("presetId", "preset"),
        ])
    );
    assert_eq!(
        product_expense_params("dep", "a", "b", Some(8), None),
        pairs(&[("department", "dep"), ("dateFrom", "a"), ("dateTo", "b"), ("hourFrom", "8")])
    );
    assert_eq!(
        sales_params("dep", "a", "b", None, Some(23), Some(false), None),
        pairs(&[
            ("department", "dep"),
            ("dateFrom", "a"),
            ("dateTo", "b"),
            ("hourTo", "23"),
            ("dishDetails", "false"),
        ])
    );
    assert_eq!(
        ingredient_entry_params("dep", "2024-01-01", None, Some("A-1"), Some(true)),
        pairs(&[
            ("department", "dep"),
            ("date", "2024-01-01"),
            ("productArticle", "A-1"),
            ("includeSubtree", "true"),
        ])
    );
}

#[test]
fn assembly_chart_params() {
    assert_eq!(
        assembly_charts_all_params("2024-01-01", None, Some(true), None),
        pairs(&[("dateFrom", "2024-01-01"), ("includeDeletedProducts", "true")])
    );
    assert_eq!(
        assembly_charts_all_update_params(17, "2024-01-01", Some("2024-02-01"), None, Some(false)),
        pairs(&[
            ("knownRevision", "17"),
            ("dateFrom", "2024-01-01"),
            ("dateTo", "2024-02-01"),
            ("includePreparedCharts", "false"),
        ])
    );
    assert_eq!(
        assembly_charts_tree_params("2024-01-01", "p1", Some("d1")),
        pairs(&[("date", "2024-01-01"), ("productId", "p1"), ("departmentId", "d1")])
    );
    assert_eq!(
        assembly_charts_history_params("p1", None),
        pairs(&[("productId", "p1")])
    );
}

#[test]
fn server_type_parsing_accepts_the_three_wire_names() {
    assert_eq!(parse_server_type("CHAIN"), Ok(ServerType::Chain));
    assert_eq!(parse_server_type(" REPLICATED_RMS \n"), Ok(ServerType::ReplicatedRms));
    assert_eq!(parse_server_type("STANDALONE_RMS"), Ok(ServerType::StandaloneRms));
}

#[test]
fn server_type_parsing_names_the_unknown_kind() {
    assert_eq!(
        parse_server_type(" LOCAL \n"),
        Err(IikoError::Api("Unknown server type: LOCAL".to_string()))
    );
}

#[test]
fn products_categories_params_keep_order() {
    assert_eq!(
        products_categories_params(Some(false), &Some(strings(&["c1", "c2"])), Some(3)),
        pairs(&[
            ("includeDeleted", "false"),
            ("ids", "c1"),
            ("ids", "c2"),
            ("revisionFrom", "3"),
        ])
    );
}
