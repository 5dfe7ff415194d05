//! The kinds of record, each with its view and its encoding.
pub mod animal;
pub mod employee;
pub mod expense;
pub mod maintenance_record;
pub mod meat_product;
pub mod quality_inspection;
pub mod shipment;
pub mod slaughterhouse;
pub mod supplier;
pub mod waste_record;
