use vstd::prelude::*;

verus! {

/// How a product is written off the store balance.
#[derive(Debug, Clone, PartialEq, Eq, Structural)]
pub enum ProductWriteoffStrategy {
    /// Write off the ingredients (prepared items and dishes not tracked on
    /// the store balance).
    Assemble,
    /// Write off the product itself (goods and prepared items whose balance
    /// is tracked).
    Direct,
}

/// How dish sizes are accounted for when writing off.
#[derive(Debug, Clone, PartialEq, Eq, Structural)]
pub enum ProductSizeAssemblyStrategy {
    /// One shared chart with rows per product and department; the computed
    /// amount is multiplied by the write-off factor.
    Common,
    /// Separate charts per size, with rows per product, size and
    /// department; recorded write-off factors are ignored.
    Specific,
}

} // verus!
