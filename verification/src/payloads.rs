//! What the caller hands over to have a record created. Quantities are in
//! the units of the records.
use vstd::prelude::*;

verus! {

/// A slaughterhouse to create.
#[derive(Debug, PartialEq, Eq)]
pub struct CreateSlaughterhousePayload {
    pub name: String,
    pub location: String,
    pub contact: String,
    pub email: String,
    pub capacity: u64,
}

/// An animal to register. `weight` is in grams.
#[derive(Debug, PartialEq, Eq)]
pub struct RegisterAnimalPayload {
    pub slaughterhouse_id: u64,
    pub tag_number: String,
    pub species: String,
    pub weight: u32,
}

/// A product to put in stock. `weight` is in grams and `price_per_kg` in
/// thousandths of the currency unit.
#[derive(Debug, PartialEq, Eq)]
pub struct CreateMeatProductPayload {
    pub animal_id: u64,
    pub slaughterhouse_id: u64,
    pub product_type: String,
    pub weight: u32,
    pub price_per_kg: u32,
}

/// An expense to record. `amount` is in millionths of the currency unit.
#[derive(Debug, PartialEq, Eq)]
pub struct RecordExpensePayload {
    pub slaughterhouse_id: u64,
    pub category: String,
    pub amount: u64,
    pub description: String,
}

/// An inspection to record. `temperature` is in thousandths of a degree
/// and `ph_level` in thousandths of a pH unit.
#[derive(Debug, PartialEq, Eq)]
pub struct QualityInspectionPayload {
    pub animal_id: u64,
    pub inspector_name: String,
    pub temperature: i32,
    pub ph_level: u32,
    pub visual_inspection: String,
    pub passed: bool,
    pub notes: String,
}

/// A member of the staff to register.
#[derive(Debug, PartialEq, Eq)]
pub struct EmployeePayload {
    pub slaughterhouse_id: u64,
    pub name: String,
    pub role: String,
    pub certification: String,
    pub contact: String,
}

/// Maintenance to schedule. `estimated_cost` is in millionths of the
/// currency unit.
#[derive(Debug, PartialEq, Eq)]
pub struct MaintenancePayload {
    pub slaughterhouse_id: u64,
    pub equipment_name: String,
    pub maintenance_type: String,
    pub scheduled_date: u64,
    pub estimated_cost: u64,
    pub notes: String,
}

/// A shipment to prepare.
#[derive(Debug, PartialEq, Eq)]
pub struct ShipmentPayload {
    pub slaughterhouse_id: u64,
    pub product_ids: Vec<u64>,
    pub destination: String,
    pub expected_delivery: u64,
}

/// A disposal of waste to record. `quantity` is in grams and `cost` in
/// millionths of the currency unit.
#[derive(Debug, PartialEq, Eq)]
pub struct WasteDisposalPayload {
    pub slaughterhouse_id: u64,
    pub waste_type: String,
    pub quantity: u64,
    pub disposal_method: String,
    pub cost: u64,
    pub handled_by: String,
}

} // verus!
