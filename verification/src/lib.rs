pub mod client;
pub mod config;
pub mod endpoints;
pub mod error;
pub mod laws;
pub mod params;
pub mod text;
pub mod xml;

pub use client::SessionDispatcher;
pub use config::IikoConfig;
pub use error::IikoError;

pub use xml::response::{
    BudgetPlanItemValueType, CategorySaveRequest, Color, ColumnCaptions, CorporationSettings,
    DateDetalization, DateRangeFilter, DeliveryMetricType, DeliveryType, DepartmentType,
    DistributionAlgorithmType, DocumentStatus, DocumentTypeList, DocumentValidationResult,
    EgaisBRegDto, EgaisMarkStateDto, EgaisMarksList, EntityType, ErrorDto, EventAttribute,
    FilterType, GroupServiceMode, IdCodeNameDto, InventoryItemStatus,
    JurPersonAdditionalPropertiesDto, KeyValue, KeyValueEntry, LegalAddressDto, OfficialEmployeeDto,
    OfficialEmployees, OlapColumnInfo, OlapReportType, OlapReportTypeV1, OperationResult,
    OrderServiceType, PeriodType, ProductSizeAssemblyStrategy, ProductType,
    ProductWriteoffStrategy, PublicExternalData, Response, RestaurantSectionIds, ServerType,
    StoreDataDirection, StoreDocumentType, StoreFilterList, StoreOperationsReportGrouping,
    StoreReportFilter, StoreReportPreset, StoreTransactionType, TransactionTypeList, ValueFilter,
};
