//! What each creating operation is to do: the conditions under which it
//! refuses the data given, in the order in which they are tested, and the
//! record that it makes otherwise.
//!
//! A creating operation either returns the record made, and has then
//! issued the identifier that was next and kept the record under it; or it
//! returns a message, and has then left the ledger as it was. The data is
//! tested before anything is written: first its own fields, then the
//! records it refers to, then whether an identifier can be issued for the
//! record and the record kept. Only the last step, writing the counter, can
//! fail for a reason that the data and the ledger do not show.
use vstd::prelude::*;
use crate::ledger::LedgerView;
use crate::message::{
    counter_failed, invalid_date, invalid_expense, invalid_product, missing_fields, no_animal,
    no_slaughterhouse, record_too_large, Message, MessageView,
};
use crate::payloads::{
    CreateMeatProductPayload, CreateSlaughterhousePayload, EmployeePayload, MaintenancePayload,
    QualityInspectionPayload, RecordExpensePayload, RegisterAnimalPayload, ShipmentPayload,
    WasteDisposalPayload,
};
use crate::record::{storable, Record};
use crate::records::animal::{Animal, AnimalView};
use crate::records::employee::{Employee, EmployeeView};
use crate::records::expense::{Expense, ExpenseView};
use crate::records::maintenance_record::{MaintenanceRecord, MaintenanceRecordView};
use crate::records::meat_product::{MeatProduct, MeatProductView};
use crate::records::quality_inspection::{QualityInspection, QualityInspectionView};
use crate::records::shipment::{Shipment, ShipmentView};
use crate::records::slaughterhouse::{Slaughterhouse, SlaughterhouseView};
use crate::records::waste_record::{WasteRecord, WasteRecordView};
use crate::text::{product_not_found_text, tracking_number_of};

verus! {

/// Whether `r` is what a creating operation returns: where the data given
/// is refused, the refusal; else the record `expected`, or the report that
/// the counter could not be written.
pub open spec fn is_outcome<T: Record>(
    r: Result<T, Message>,
    refusal: Option<MessageView>,
    expected: T::V,
) -> bool {
    match r {
        Ok(rec) => refusal is None && rec@ == expected,
        Err(e) => e@ == match refusal {
            Some(m) => m,
            None => counter_failed(),
        },
    }
}

/// One creating operation, as far as the identifier sequence goes: the
/// identifier that was next before it, the one it issued if it issued one,
/// and the identifier that is next after it.
pub struct Call {
    pub before: u64,
    pub issued: Option<u64>,
    pub after: u64,
}

/// The call that a creating operation makes, from what it returned and the
/// ledger before and after it.
pub open spec fn call_of<T: Record>(before: LedgerView, r: Result<T, Message>, after: LedgerView)
    -> Call {
    Call {
        before: before.next_id,
        issued: match r {
            Ok(rec) => Some(T::id_of(rec@)),
            Err(_) => None,
        },
        after: after.next_id,
    }
}

/// A call issues the identifier that was next, and then the one after it is
/// next; or it issues none, and the same one is next.
pub open spec fn advances(c: Call) -> bool {
    match c.issued {
        Some(id) => id == c.before && c.after == c.before + 1,
        None => c.after == c.before,
    }
}

/// Why no identifier can be issued for `rec`, if none can.
pub open spec fn issue_refusal<T: Record>(next_id: u64, rec: T::V) -> Option<MessageView> {
    if next_id == u64::MAX {
        Some(counter_failed())
    } else if !storable::<T>(rec) {
        Some(record_too_large())
    } else {
        None
    }
}

/// The ledger after a creating operation that returned `r`.
pub open spec fn is_effect<T: Record>(
    r: Result<T, Message>,
    before: LedgerView,
    created: LedgerView,
    after: LedgerView,
) -> bool {
    match r {
        Ok(_) => after == created,
        Err(_) => after == before,
    }
}

/// The slaughterhouse made of `p` at time `now`, with identifier `id`.
pub open spec fn new_slaughterhouse(
    p: CreateSlaughterhousePayload,
    id: u64,
    now: u64,
) -> SlaughterhouseView {
    SlaughterhouseView {
        id,
        name: p.name@,
        location: p.location@,
        contact: p.contact@,
        email: p.email@,
        capacity: p.capacity,
        created_at: now,
    }
}

/// Why the slaughterhouse is not created, if it is not: it has no name, no
/// contact or no email; or no identifier can be issued for it.
pub open spec fn slaughterhouse_refusal(
    v: LedgerView,
    p: CreateSlaughterhousePayload,
    now: u64,
) -> Option<MessageView> {
    if p.name@.len() == 0 || p.contact@.len() == 0 || p.email@.len() == 0 {
        Some(missing_fields())
    } else {
        issue_refusal::<Slaughterhouse>(v.next_id, new_slaughterhouse(p, v.next_id, now))
    }
}

/// The animal made of `p` at time `now`, with identifier `id`: it is
/// received.
pub open spec fn new_animal(p: RegisterAnimalPayload, id: u64, now: u64) -> AnimalView {
    AnimalView {
        id,
        slaughterhouse_id: p.slaughterhouse_id,
        tag_number: p.tag_number@,
        species: p.species@,
        weight: p.weight,
        arrival_time: now,
        status: "received"@,
    }
}

/// Why the animal is not registered, if it is not: it has no tag or no
/// species; its slaughterhouse does not exist; or no identifier can be
/// issued for it.
pub open spec fn animal_refusal(v: LedgerView, p: RegisterAnimalPayload, now: u64) -> Option<
    MessageView,
> {
    if p.tag_number@.len() == 0 || p.species@.len() == 0 {
        Some(missing_fields())
    } else if !v.slaughterhouses.dom().contains(p.slaughterhouse_id) {
        Some(no_slaughterhouse())
    } else {
        issue_refusal::<Animal>(v.next_id, new_animal(p, v.next_id, now))
    }
}

/// The product made of `p` at time `now`, with identifier `id`: it is in
/// stock, and its total price is its weight times its price.
pub open spec fn new_meat_product(p: CreateMeatProductPayload, id: u64, now: u64)
    -> MeatProductView {
    MeatProductView {
        id,
        animal_id: p.animal_id,
        slaughterhouse_id: p.slaughterhouse_id,
        product_type: p.product_type@,
        weight: p.weight,
        price_per_kg: p.price_per_kg,
        total_price: (p.weight * p.price_per_kg) as u64,
        status: "in-stock"@,
        created_at: now,
    }
}

/// Why the product is not created, if it is not: it has no type, no weight
/// or no price; its animal does not exist; its slaughterhouse does not
/// exist; or no identifier can be issued for it.
pub open spec fn meat_product_refusal(
    v: LedgerView,
    p: CreateMeatProductPayload,
    now: u64,
) -> Option<MessageView> {
    if p.product_type@.len() == 0 || p.weight == 0 || p.price_per_kg == 0 {
        Some(invalid_product())
    } else if !v.animals.dom().contains(p.animal_id) {
        Some(no_animal())
    } else if !v.slaughterhouses.dom().contains(p.slaughterhouse_id) {
        Some(no_slaughterhouse())
    } else {
        issue_refusal::<MeatProduct>(v.next_id, new_meat_product(p, v.next_id, now))
    }
}

/// The expense made of `p` at time `now`, with identifier `id`.
pub open spec fn new_expense(p: RecordExpensePayload, id: u64, now: u64) -> ExpenseView {
    ExpenseView {
        id,
        slaughterhouse_id: p.slaughterhouse_id,
        date: now,
        category: p.category@,
        amount: p.amount,
        description: p.description@,
    }
}

/// Why the expense is not recorded, if it is not: it has no amount; its
/// slaughterhouse does not exist; or no identifier can be issued for it.
pub open spec fn expense_refusal(v: LedgerView, p: RecordExpensePayload, now: u64) -> Option<
    MessageView,
> {
    if p.amount == 0 {
        Some(invalid_expense())
    } else if !v.slaughterhouses.dom().contains(p.slaughterhouse_id) {
        Some(no_slaughterhouse())
    } else {
        issue_refusal::<Expense>(v.next_id, new_expense(p, v.next_id, now))
    }
}

/// The inspection made of `p` at time `now`, with identifier `id`.
pub open spec fn new_quality_inspection(p: QualityInspectionPayload, id: u64, now: u64)
    -> QualityInspectionView {
    QualityInspectionView {
        id,
        animal_id: p.animal_id,
        inspector_name: p.inspector_name@,
        inspection_date: now,
        temperature: p.temperature,
        ph_level: p.ph_level,
        visual_inspection: p.visual_inspection@,
        passed: p.passed,
        notes: p.notes@,
    }
}

/// Why the inspection is not recorded, if it is not: its animal does not
/// exist; or no identifier can be issued for it.
pub open spec fn quality_inspection_refusal(
    v: LedgerView,
    p: QualityInspectionPayload,
    now: u64,
) -> Option<MessageView> {
    if !v.animals.dom().contains(p.animal_id) {
        Some(no_animal())
    } else {
        issue_refusal::<QualityInspection>(
            v.next_id,
            new_quality_inspection(p, v.next_id, now),
        )
    }
}

/// The employee made of `p` at time `now`, with identifier `id`: active.
pub open spec fn new_employee(p: EmployeePayload, id: u64, now: u64) -> EmployeeView {
    EmployeeView {
        id,
        slaughterhouse_id: p.slaughterhouse_id,
        name: p.name@,
        role: p.role@,
        certification: p.certification@,
        hire_date: now,
        contact: p.contact@,
        status: "active"@,
    }
}

/// Why the employee is not registered, if not: there is no name or no
/// role; the slaughterhouse does not exist; or no identifier can be issued.
pub open spec fn employee_refusal(v: LedgerView, p: EmployeePayload, now: u64) -> Option<
    MessageView,
> {
    if p.name@.len() == 0 || p.role@.len() == 0 {
        Some(missing_fields())
    } else if !v.slaughterhouses.dom().contains(p.slaughterhouse_id) {
        Some(no_slaughterhouse())
    } else {
        issue_refusal::<Employee>(v.next_id, new_employee(p, v.next_id, now))
    }
}

/// The time from maintenance to the next one: three months, in seconds.
pub const MAINTENANCE_INTERVAL: u64 = 7_884_000;

/// The maintenance made of `p`, with identifier `id`: it is scheduled, done
/// by nobody yet, and the next one is due an interval later.
pub open spec fn new_maintenance_record(p: MaintenancePayload, id: u64) -> MaintenanceRecordView {
    MaintenanceRecordView {
        id,
        slaughterhouse_id: p.slaughterhouse_id,
        equipment_name: p.equipment_name@,
        maintenance_type: p.maintenance_type@,
        cost: p.estimated_cost,
        date: p.scheduled_date,
        next_maintenance_date: (p.scheduled_date + MAINTENANCE_INTERVAL) as u64,
        performed_by: ""@,
        status: "scheduled"@,
        notes: p.notes@,
    }
}

/// Why the maintenance is not scheduled, if it is not: the equipment has
/// no name or the maintenance no type; the date is so late that the next
/// one has none; the slaughterhouse does not exist; or no identifier can be
/// issued for it.
pub open spec fn maintenance_refusal(v: LedgerView, p: MaintenancePayload) -> Option<
    MessageView,
> {
    if p.equipment_name@.len() == 0 || p.maintenance_type@.len() == 0 {
        Some(missing_fields())
    } else if p.scheduled_date + MAINTENANCE_INTERVAL > u64::MAX {
        Some(invalid_date())
    } else if !v.slaughterhouses.dom().contains(p.slaughterhouse_id) {
        Some(no_slaughterhouse())
    } else {
        issue_refusal::<MaintenanceRecord>(v.next_id, new_maintenance_record(p, v.next_id))
    }
}

/// The first of `ids` that is no key of `products`, if there is one.
pub open spec fn first_missing(ids: Seq<u64>, products: Map<u64, MeatProductView>) -> Option<u64>
    decreases ids.len(),
{
    if ids.len() == 0 {
        None
    } else if !products.dom().contains(ids[0]) {
        Some(ids[0])
    } else {
        first_missing(ids.drop_first(), products)
    }
}

/// The shipment made of `p` at time `now`, with identifier `id`: it is in
/// preparation, has no temperature reading yet, and its tracking number is
/// made of its identifier.
pub open spec fn new_shipment(p: ShipmentPayload, id: u64, now: u64) -> ShipmentView {
    ShipmentView {
        id,
        slaughterhouse_id: p.slaughterhouse_id,
        product_ids: p.product_ids@,
        destination: p.destination@,
        shipping_date: now,
        expected_delivery: p.expected_delivery,
        temperature_log: Seq::empty(),
        status: "preparing"@,
        tracking_number: tracking_number_of(id),
    }
}

/// Why the shipment is not created, if it is not: one of its products does
/// not exist, and the first such is named; its slaughterhouse does not
/// exist; or no identifier can be issued for it.
pub open spec fn shipment_refusal(v: LedgerView, p: ShipmentPayload, now: u64) -> Option<
    MessageView,
> {
    match first_missing(p.product_ids@, v.meat_products) {
        Some(id) => Some(MessageView::NotFound(product_not_found_text(id))),
        None => if !v.slaughterhouses.dom().contains(p.slaughterhouse_id) {
            Some(no_slaughterhouse())
        } else {
            issue_refusal::<Shipment>(v.next_id, new_shipment(p, v.next_id, now))
        },
    }
}

/// The waste record made of `p` at time `now`, with identifier `id`.
pub open spec fn new_waste_record(p: WasteDisposalPayload, id: u64, now: u64) -> WasteRecordView {
    WasteRecordView {
        id,
        slaughterhouse_id: p.slaughterhouse_id,
        waste_type: p.waste_type@,
        quantity: p.quantity,
        disposal_method: p.disposal_method@,
        disposal_date: now,
        handled_by: p.handled_by@,
        cost: p.cost,
    }
}

/// Why the disposal is not recorded, if it is not: the slaughterhouse does
/// not exist; or no identifier can be issued for the record.
pub open spec fn waste_refusal(v: LedgerView, p: WasteDisposalPayload, now: u64) -> Option<
    MessageView,
> {
    if !v.slaughterhouses.dom().contains(p.slaughterhouse_id) {
        Some(no_slaughterhouse())
    } else {
        issue_refusal::<WasteRecord>(v.next_id, new_waste_record(p, v.next_id, now))
    }
}

} // verus!
