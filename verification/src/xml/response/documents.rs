use vstd::prelude::*;

verus! {

/// The lifecycle state of a store document.
#[derive(Debug, Clone, PartialEq, Eq, Structural)]
pub enum DocumentStatus {
    /// Newly created document.
    New,
    /// Processed document.
    Processed,
    /// Deleted document.
    Deleted,
}

/// How additional expenses are distributed over the document items.
#[derive(Debug, Clone, PartialEq, Eq, Structural)]
pub enum DistributionAlgorithmType {
    /// Distribute by sum.
    DistributionBySum,
    /// Distribute by amount.
    DistributionByAmount,
    /// Not specified.
    DistributionNotSpecified,
}

/// The outcome of validating an imported document.
#[derive(Debug, Clone)]
pub struct DocumentValidationResult {
    /// Whether the document is valid.
    pub valid: bool,
    /// Whether the problem is only a warning rather than an error.
    pub warning: bool,
    /// The number of the validated document.
    pub document_number: Option<String>,
    /// A replacement number, when the old one breaks uniqueness.
    pub other_suggested_number: Option<String>,
    /// The error text, meant to be shown to a user.
    pub error_message: Option<String>,
    /// Details of the error, item by item where applicable.
    pub additional_info: Option<String>,
}

/// The state of one inventory line.
#[derive(Debug, Clone, PartialEq, Eq, Structural)]
pub enum InventoryItemStatus {
    /// The line is not saved: no postings are created.
    New,
    /// The line is saved: postings are created.
    Save,
    /// The line was removed as the result of an earlier count.
    Recalc,
}

/// An object reference: identifier, code and display name.
#[derive(Debug, Clone)]
pub struct IdCodeNameDto {
    pub id: String,
    pub code: Option<String>,
    pub name: Option<String>,
}

} // verus!
