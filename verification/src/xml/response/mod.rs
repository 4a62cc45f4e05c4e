pub mod assembly_charts;
pub mod common;
pub mod corporation;
pub mod documents;
pub mod employees;
pub mod entities;
pub mod events;
pub mod products;
pub mod replication;
pub mod reports;

pub use assembly_charts::{ProductSizeAssemblyStrategy, ProductWriteoffStrategy};
pub use common::Response;
pub use corporation::{
    CorporationSettings, DepartmentType, GroupServiceMode, JurPersonAdditionalPropertiesDto,
    LegalAddressDto, OfficialEmployeeDto, OfficialEmployees, RestaurantSectionIds,
};
pub use documents::{
    DistributionAlgorithmType, DocumentStatus, DocumentValidationResult, IdCodeNameDto,
    InventoryItemStatus,
};
pub use employees::{KeyValueEntry, PublicExternalData};
pub use entities::{EntityType, OrderServiceType};
pub use events::EventAttribute;
pub use products::{CategorySaveRequest, Color, ErrorDto, OperationResult, ProductType};
pub use replication::ServerType;
pub use reports::{
    BudgetPlanItemValueType, ColumnCaptions, DateDetalization, DateRangeFilter, DeliveryMetricType,
    DeliveryType, DocumentTypeList, EgaisBRegDto, EgaisMarkStateDto, EgaisMarksList, FilterType,
    KeyValue, OlapColumnInfo, OlapReportType, OlapReportTypeV1, PeriodType, StoreDataDirection,
    StoreDocumentType, StoreFilterList, StoreOperationsReportGrouping, StoreReportFilter,
    StoreReportPreset, StoreTransactionType, TransactionTypeList, ValueFilter,
};
