use vstd::prelude::*;

verus! {

/// The reference books the nomenclature service can list.
#[derive(Debug, Clone, Copy, PartialEq, Eq, Hash, Structural)]
pub enum EntityType {
    /// Accounts, stores included.
    Account,
    /// Accounting category of the nomenclature.
    AccountingCategory,
    /// Alcohol product class.
    AlcoholClass,
    /// Allergen group.
    AllergenGroup,
    /// Attendance type of an employee.
    AttendanceType,
    /// Conception.
    Conception,
    /// Cooking place type.
    CookingPlaceType,
    /// Discount type.
    DiscountType,
    /// Measure unit.
    MeasureUnit,
    /// Order type.
    OrderType,
    /// Payment type.
    PaymentType,
    /// User-defined category of the nomenclature.
    ProductCategory,
    /// Size scale.
    ProductScale,
    /// Product size.
    ProductSize,
    /// Schedule type.
    ScheduleType,
    /// Tax category.
    TaxCategory,
}

/// The wire name of each reference book.
pub open spec fn spec_entity_type_str(t: EntityType) -> Seq<char> {
    match t {
        EntityType::Account => "Account"@,
        EntityType::AccountingCategory => "AccountingCategory"@,
        EntityType::AlcoholClass => "AlcoholClass"@,
        EntityType::AllergenGroup => "AllergenGroup"@,
        EntityType::AttendanceType => "AttendanceType"@,
        EntityType::Conception => "Conception"@,
        EntityType::CookingPlaceType => "CookingPlaceType"@,
        EntityType::DiscountType => "DiscountType"@,
        EntityType::MeasureUnit => "MeasureUnit"@,
        EntityType::OrderType => "OrderType"@,
        EntityType::PaymentType => "PaymentType"@,
        EntityType::ProductCategory => "ProductCategory"@,
        EntityType::ProductScale => "ProductScale"@,
        EntityType::ProductSize => "ProductSize"@,
        EntityType::ScheduleType => "ScheduleType"@,
        EntityType::TaxCategory => "TaxCategory"@,
    }
}

impl EntityType {
    /// The name this reference book carries on the wire.
    pub fn as_str(&self) -> (r: &'static str)
        ensures
            r@ == spec_entity_type_str(*self),
    {
        match self {
            EntityType::Account => "Account",
            EntityType::AccountingCategory => "AccountingCategory",
            EntityType::AlcoholClass => "AlcoholClass",
            EntityType::AllergenGroup => "AllergenGroup",
            EntityType::AttendanceType => "AttendanceType",
            EntityType::Conception => "Conception",
            EntityType::CookingPlaceType => "CookingPlaceType",
            EntityType::DiscountType => "DiscountType",
            EntityType::MeasureUnit => "MeasureUnit",
            EntityType::OrderType => "OrderType",
            EntityType::PaymentType => "PaymentType",
            EntityType::ProductCategory => "ProductCategory",
            EntityType::ProductScale => "ProductScale",
            EntityType::ProductSize => "ProductSize",
            EntityType::ScheduleType => "ScheduleType",
            EntityType::TaxCategory => "TaxCategory",
        }
    }
}

/// The service mode attached to an order type.
#[derive(Debug, Clone, Copy, PartialEq, Eq, Structural)]
pub enum OrderServiceType {
    /// Ordinary order.
    Common,
    /// Delivery by courier.
    DeliveryByCourier,
    /// Customer pickup.
    DeliveryPickup,
}

} // verus!
