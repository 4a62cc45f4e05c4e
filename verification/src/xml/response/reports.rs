use vstd::prelude::*;

use std::collections::HashMap;

verus! {

/// The state of one excise mark.
#[derive(Debug, Clone)]
pub struct EgaisMarkStateDto {
    /// The date-time up to which the state is current.
    pub date_to: String,
}

/// The data of one B certificate.
#[derive(Debug, Clone)]
pub struct EgaisBRegDto {
    /// The RAR identifier of the source organisation.
    pub source_rar_id: String,
    /// The alcohol code.
    pub alc_code: String,
    /// The marks on the organisation's balance, keyed by the mark text.
    pub marks_on_balance: HashMap<String, EgaisMarkStateDto>,
    /// The marks written off the balance, keyed by the mark text.
    pub marks_written_off: HashMap<String, EgaisMarkStateDto>,
}

/// The balance report of excise marks on the third register.
#[derive(Debug, Clone)]
pub struct EgaisMarksList {
    /// The revision up to and including which data is reported.
    pub revision: i64,
    /// Whether the packet is a full update (the client drops everything not
    /// listed) or a partial one (the client replaces matching keys).
    pub full_update: bool,
    /// The certificate data, keyed by certificate identifier.
    pub marks_by_b_reg_id: HashMap<String, EgaisBRegDto>,
}

/// The kind of OLAP report.
#[derive(Debug, Clone, Copy, Structural, PartialEq)]
pub enum OlapReportType {
    /// Sales.
    Sales,
    /// Transactions.
    Transactions,
    /// Deliveries.
    Deliveries,
}

/// The kind of OLAP report in the first API version.
#[derive(Debug, Clone, Copy, PartialEq, Eq, Structural)]
pub enum OlapReportTypeV1 {
    /// Sales.
    Sales,
    /// Transactions.
    Transactions,
    /// Deliveries.
    Deliveries,
    /// Stock control.
    Stock,
}

/// The wire name of each first-version OLAP report kind.
pub open spec fn spec_olap_report_v1_str(t: OlapReportTypeV1) -> Seq<char> {
    match t {
        OlapReportTypeV1::Sales => "SALES"@,
        OlapReportTypeV1::Transactions => "TRANSACTIONS"@,
        OlapReportTypeV1::Deliveries => "DELIVERIES"@,
        OlapReportTypeV1::Stock => "STOCK"@,
    }
}

impl OlapReportTypeV1 {
    /// The name this report kind carries on the wire.
    pub fn as_str(&self) -> (r: &'static str)
        ensures
            r@ == spec_olap_report_v1_str(*self),
    {
        match self {
            OlapReportTypeV1::Sales => "SALES",
            OlapReportTypeV1::Transactions => "TRANSACTIONS",
            OlapReportTypeV1::Deliveries => "DELIVERIES",
            OlapReportTypeV1::Stock => "STOCK",
        }
    }
}

/// How a filter restricts a report field.
#[derive(Debug, Clone, Structural, PartialEq)]
pub enum FilterType {
    /// Only the listed values take part.
    IncludeValues,
    /// All values except the listed ones take part.
    ExcludeValues,
    /// A range of values.
    Range,
    /// A range of dates.
    DateRange,
}

/// The period kinds a date filter can name.
#[derive(Debug, Clone, Structural, PartialEq)]
pub enum PeriodType {
    /// Chosen by hand.
    Custom,
    /// The currently open period.
    OpenPeriod,
    /// Today.
    Today,
    /// Yesterday.
    Yesterday,
    /// The current week.
    CurrentWeek,
    /// The current month.
    CurrentMonth,
    /// The current year.
    CurrentYear,
    /// The previous week.
    LastWeek,
    /// The previous month.
    LastMonth,
    /// The previous year.
    LastYear,
}

/// A filter over the values of a field.
#[derive(Debug, Clone)]
pub struct ValueFilter {
    pub filter_type: FilterType,
    pub values: Vec<String>,
}

/// A filter over a range of dates.
#[derive(Debug, Clone)]
pub struct DateRangeFilter {
    pub filter_type: FilterType,
    pub period_type: PeriodType,
    pub from: String,
    pub to: String,
    pub include_low: bool,
    pub include_high: bool,
}

/// The description of one OLAP report column.
#[derive(Debug, Clone)]
pub struct OlapColumnInfo {
    /// The column name as the back office shows it.
    pub name: String,
    /// The field type.
    pub column_type: String,
    /// Whether the column can be aggregated over.
    pub aggregation_allowed: bool,
    /// Whether the column can be grouped by.
    pub grouping_allowed: bool,
    /// Whether the column can be filtered on.
    pub filtering_allowed: bool,
    /// The report categories the field belongs to.
    pub tags: Vec<String>,
}

/// Which statistic a delivery metric reports.
#[derive(Debug, Clone, Copy, PartialEq, Eq, Structural)]
pub enum DeliveryMetricType {
    /// The average value.
    Average,
    /// The smallest value.
    Minimum,
    /// The largest value.
    Maximum,
    /// The relation to the target figures.
    Target,
}

/// The kind of delivery.
#[derive(Debug, Clone, Copy, PartialEq, Eq, Structural)]
pub enum DeliveryType {
    /// By courier.
    Courier,
    /// Customer pickup.
    Pickup,
}

/// The transaction kinds of the store operation reports.
#[derive(Debug, Clone, Copy, PartialEq, Eq, Structural)]
pub enum StoreTransactionType {
    OpeningBalance,
    Custom,
    Cash,
    PrepayClosed,
    Prepay,
    PrepayReturn,
    PrepayClosedReturn,
    Discount,
    Card,
    Credit,
    Payin,
    Payout,
    PayCollection,
    CashCorrection,
    InventoryCorrection,
    StoreCostCorrection,
    CashSurplus,
    CashShortage,
    Penalty,
    Bonus,
    Invoice,
    NdsIncoming,
    NdsSales,
    SalesRevenue,
    OutgoingInvoice,
    OutgoingInvoiceRevenue,
    ReturnedInvoice,
    ReturnedInvoiceRevenue,
    Writeoff,
    SessionWriteoff,
    Transfer,
    Transformation,
    TariffHour,
    OnTheHouse,
    Advance,
    IncomingService,
    OutgoingService,
    IncomingServicePayment,
    OutgoingServicePayment,
    CloseAtEmployeeExpense,
    IncentivePayment,
    TariffPercent,
    SessionAcceptance,
    EmployeeCashPayment,
    EmployeePayment,
    InvoicePayment,
    OutgoingDocumentPayment,
    OutgoingSalesDocumentPayment,
    Production,
    SalesReturnPayment,
    SalesReturnWriteoff,
    Disassemble,
    ImportedBankStatement,
}

/// The document kinds of the store operation reports.
#[derive(Debug, Clone, Copy, PartialEq, Eq, Structural)]
pub enum StoreDocumentType {
    IncomingInvoice,
    IncomingInventory,
    IncomingService,
    OutgoingService,
    WriteoffDocument,
    SalesDocument,
    SessionAcceptance,
    InternalTransfer,
    OutgoingInvoice,
    ReturnedInvoice,
    ProductionDocument,
    TransformationDocument,
    ProductionOrder,
    ConsolidatedOrder,
    PreparedRegister,
    MenuChange,
    ProductReplacement,
    SalesReturnDocument,
    DisassembleDocument,
    FuelAcceptance,
    FuelGagingDocument,
    Payroll,
    OutgoingCashOrder,
    IncomingCashOrder,
}

/// The direction of data in the store operation reports.
#[derive(Debug, Clone, Copy, PartialEq, Eq, Structural)]
pub enum StoreDataDirection {
    /// Incoming.
    In,
    /// Incoming and outgoing.
    Inout,
    /// Outgoing.
    Out,
}

/// The date granularity of a report.
#[derive(Debug, Clone, Copy, PartialEq, Eq, Structural)]
pub enum DateDetalization {
    /// By day.
    Day,
    /// By year.
    Year,
    /// By month.
    Month,
    /// By week.
    Week,
    /// By half-month.
    HalfMonth,
    /// Totals only.
    TotalOnly,
    /// By quarter.
    Quarter,
}

/// How an income plan value is given.
#[derive(Debug, Clone, Copy, PartialEq, Eq, Structural)]
pub enum BudgetPlanItemValueType {
    /// An absolute figure.
    Absolute,
    /// A percentage.
    Percent,
    /// Computed automatically.
    Automatic,
}

/// A saved preset of the store operations report.
#[derive(Debug, Clone)]
pub struct StoreReportPreset {
    /// The preset identifier.
    pub id: Option<String>,
    /// Whether this preset is the default report.
    pub default_report: bool,
    /// The preset name.
    pub name: Option<String>,
    /// A free-form comment.
    pub comment: Option<String>,
    /// The grouping of the report.
    pub grouping: Option<StoreOperationsReportGrouping>,
    /// The filter of the report.
    pub filter: Option<StoreReportFilter>,
    /// The column captions.
    pub column_captions: Option<ColumnCaptions>,
}

/// The grouping of the store operations report.
#[derive(Debug, Clone)]
pub struct StoreOperationsReportGrouping {
    /// The date granularity.
    pub date_detalization: Option<DateDetalization>,
}

/// The filter of the store operations report.
#[derive(Debug, Clone)]
pub struct StoreReportFilter {
    /// Primary stores.
    pub primary_stores: Option<StoreFilterList>,
    /// Corresponding accounts.
    pub secondary_accounts: Option<StoreFilterList>,
    /// Counteragents.
    pub counteragents: Option<StoreFilterList>,
    /// Products.
    pub products: Option<StoreFilterList>,
    /// Corresponding products.
    pub secondary_products: Option<StoreFilterList>,
    /// Transaction kinds.
    pub transaction_types: Option<TransactionTypeList>,
    /// Document kinds.
    pub document_types: Option<DocumentTypeList>,
    /// The direction of data.
    pub data_direction: Option<StoreDataDirection>,
    /// Whether zero amounts and sums are included.
    pub include_zero_amount_and_sum: bool,
}

/// A list of filter strings.
#[derive(Debug, Clone)]
pub struct StoreFilterList {
    pub items: Vec<String>,
}

/// A list of transaction kinds.
#[derive(Debug, Clone)]
pub struct TransactionTypeList {
    pub items: Vec<StoreTransactionType>,
}

/// A list of document kinds.
#[derive(Debug, Clone)]
pub struct DocumentTypeList {
    pub items: Vec<StoreDocumentType>,
}

/// Column captions as key/value pairs.
#[derive(Debug, Clone)]
pub struct ColumnCaptions {
    pub items: Vec<KeyValue>,
}

/// One key/value pair.
#[derive(Debug, Clone)]
pub struct KeyValue {
    /// The key.
    pub key: Option<String>,
    /// The value.
    pub value: Option<String>,
}

} // verus!
