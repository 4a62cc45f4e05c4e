use vstd::prelude::*;

verus! {

/// The kinds of nomenclature elements.
#[derive(Debug, Clone, PartialEq, Eq, Structural)]
pub enum ProductType {
    /// Goods.
    Goods,
    /// A dish.
    Dish,
    /// A prepared (semi-finished) item.
    Prepared,
    /// A service.
    Service,
    /// A modifier.
    Modifier,
    /// Supplier goods that are not part of the system's nomenclature.
    Outer,
    /// A rate, child of a service.
    Rate,
}

/// An RGB color.
#[derive(Debug, Clone)]
pub struct Color {
    pub red: u8,
    pub green: u8,
    pub blue: u8,
}

/// Whether an operation succeeded or failed.
#[derive(Debug, Clone, PartialEq, Eq, Structural)]
pub enum OperationResult {
    Success,
    Error,
}

/// One validation error of a save or update operation.
#[derive(Debug, Clone)]
pub struct ErrorDto {
    /// The error code.
    pub code: Option<String>,
    /// The object identifier or field name the error refers to.
    pub value: Option<String>,
    /// The error text, where the server provides one.
    pub message: Option<String>,
}

/// The request body for creating a category.
#[derive(Debug, Clone)]
pub struct CategorySaveRequest {
    /// The category name.
    pub name: String,
}

} // verus!
