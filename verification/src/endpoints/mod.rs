pub mod assembly_charts;
pub mod corporation;
pub mod documents;
pub mod employees;
pub mod entities;
pub mod events;
pub mod products;
pub mod product_scales;
pub mod reports;
pub mod suppliers;
