use vstd::prelude::*;

verus! {

/// The kinds of departments in the corporation hierarchy.
#[derive(Debug, Clone, PartialEq, Eq, Structural)]
pub enum DepartmentType {
    Corporation,
    Jurperson,
    Orgdevelopment,
    Department,
    Manufacture,
    Centralstore,
    Centraloffice,
    Salepoint,
    Store,
}

/// Extra registration data of a legal person.
#[derive(Debug, Clone)]
pub struct JurPersonAdditionalPropertiesDto {
    pub taxpayer_id: Option<String>,
    pub accounting_reason_code: Option<String>,
    pub business_classification_code: Option<String>,
    pub economic_activity_classification_code: Option<String>,
    pub iban: Option<String>,
    pub swift_bic: Option<String>,
    pub registration_number: Option<String>,
    pub address: Option<String>,
    pub settlement_account: Option<String>,
    pub bik: Option<String>,
    pub bank: Option<String>,
    pub bank_city: Option<String>,
    pub correspondent_account: Option<String>,
    pub phone: Option<String>,
    pub gln: Option<String>,
    pub description: Option<String>,
    pub legal_address: Option<LegalAddressDto>,
    pub official_employees: Option<OfficialEmployees>,
}

/// A registered legal address.
#[derive(Debug, Clone)]
pub struct LegalAddressDto {
    pub zip_code: Option<String>,
    pub office: Option<String>,
    pub building: Option<String>,
    pub house: Option<String>,
    pub street: Option<String>,
    pub community: Option<String>,
    pub city: Option<String>,
    pub district: Option<String>,
    pub region: Option<String>,
    pub country: Option<String>,
}

/// The registered officers of a legal person.
#[derive(Debug, Clone)]
pub struct OfficialEmployees {
    pub items: Vec<OfficialEmployeeDto>,
}

/// One registered officer: a role and a name.
#[derive(Debug, Clone)]
pub struct OfficialEmployeeDto {
    pub role: Option<String>,
    pub name: Option<String>,
}

/// The service mode of a group of sections.
#[derive(Debug, Clone, PartialEq, Eq, Structural)]
pub enum GroupServiceMode {
    FastFood,
    TableService,
    Petroleum,
}

/// The restaurant section identifiers of a group.
#[derive(Debug, Clone)]
pub struct RestaurantSectionIds {
    pub items: Vec<String>,
}

/// Corporation-wide accounting settings.
#[derive(Debug, Clone)]
pub struct CorporationSettings {
    pub vat_accounting: String,
}

} // verus!
