//! The ledger: the identifier counter and the ten stores, with the
//! operations that create records and those that report on them.
//!
//! Every operation runs to its end before the next begins: the ledger is
//! handed to it by exclusive reference, or by shared reference where it only
//! reads. An operation that fails leaves the ledger as it was.
use vstd::prelude::*;
use std::collections::HashSet;
use crate::analytics::{
    expenses_of, financial_metrics, inventory_analytics, is_financial_report,
    is_inventory_report, is_maintenance_report, is_quality_report, maintained,
    maintenance_analytics, maintenance_costs_of, quality_metrics, revenue_of, waste_costs_of,
    FinancialMetrics, InventoryAnalytics, MaintenanceAnalytics, QualityMetrics,
};
use crate::charges::{amount_fn, in_house, of_house, select_house, total, total_of};
use crate::creation::{
    advances, animal_refusal, call_of, employee_refusal, expense_refusal, first_missing,
    is_effect, is_outcome, maintenance_refusal, meat_product_refusal, new_animal, new_employee,
    new_expense, new_maintenance_record, new_meat_product, new_quality_inspection, new_shipment,
    new_slaughterhouse, new_waste_record, quality_inspection_refusal, shipment_refusal,
    slaughterhouse_refusal, waste_refusal, MAINTENANCE_INTERVAL,
};
use crate::ids::IdAllocator;
use crate::listing::{ascending, is_listing, lemma_listing_exists};
use crate::message::{
    counter_failed, no_slaughterhouse, record_too_large, total_out_of_range, unreadable, Message,
};
use crate::payloads::{
    CreateMeatProductPayload, CreateSlaughterhousePayload, EmployeePayload, MaintenancePayload,
    QualityInspectionPayload, RecordExpensePayload, RegisterAnimalPayload, ShipmentPayload,
    WasteDisposalPayload,
};
use crate::record::{encode_bounded, storable, Record};
use crate::records::animal::{Animal, AnimalView};
use crate::records::employee::{Employee, EmployeeView};
use crate::records::expense::{Expense, ExpenseView};
use crate::records::maintenance_record::{MaintenanceRecord, MaintenanceRecordView};
use crate::records::meat_product::{MeatProduct, MeatProductView};
use crate::records::quality_inspection::{QualityInspection, QualityInspectionView};
use crate::records::shipment::{Shipment, ShipmentView};
use crate::records::slaughterhouse::{Slaughterhouse, SlaughterhouseView};
use crate::records::supplier::{Supplier, SupplierView};
use crate::records::waste_record::{WasteRecord, WasteRecordView};
use crate::stable::{open_partitions, open_rows, stored, StableRows};
use crate::store::{row_views, values, Store};
use crate::tally::{lemma_filter_members, lemma_sum_agree, sum_of};
use crate::text::{product_not_found, tracking_number};

verus! {

/// The partition of the memory that holds the counter.
pub const COUNTER_PARTITION: u8 = 0;

/// The partition of the memory that holds the first store; the others
/// follow it, in the order of the fields of `Ledger`.
pub const FIRST_STORE_PARTITION: u8 = 10;

/// The identifier counter and the stores.
pub struct Ledger {
    ids: IdAllocator,
    slaughterhouses: Store<Slaughterhouse>,
    animals: Store<Animal>,
    meat_products: Store<MeatProduct>,
    expenses: Store<Expense>,
    quality_inspections: Store<QualityInspection>,
    employees: Store<Employee>,
    maintenance_records: Store<MaintenanceRecord>,
    suppliers: Store<Supplier>,
    shipments: Store<Shipment>,
    waste_records: Store<WasteRecord>,
}

/// What a ledger holds: the identifier that will be issued next, and each
/// store as a map from identifiers to records.
pub struct LedgerView {
    pub next_id: u64,
    pub slaughterhouses: Map<u64, SlaughterhouseView>,
    pub animals: Map<u64, AnimalView>,
    pub meat_products: Map<u64, MeatProductView>,
    pub expenses: Map<u64, ExpenseView>,
    pub quality_inspections: Map<u64, QualityInspectionView>,
    pub employees: Map<u64, EmployeeView>,
    pub maintenance_records: Map<u64, MaintenanceRecordView>,
    pub suppliers: Map<u64, SupplierView>,
    pub shipments: Map<u64, ShipmentView>,
    pub waste_records: Map<u64, WasteRecordView>,
}

/// 1 where `b` holds, else 0.
pub open spec fn one_if(b: bool) -> int {
    if b {
        1
    } else {
        0
    }
}

/// Whether every row was issued before `next_id`, and holds a record that
/// carries the identifier it is kept under.
pub open spec fn issued<T: Record>(rows: Map<u64, T::V>, next_id: u64) -> bool {
    forall|id: u64| #[trigger] rows.dom().contains(id) ==> id < next_id && T::id_of(rows[id]) == id
}

/// Whether the total price of every product is its weight times its price.
pub open spec fn priced(products: Map<u64, MeatProductView>) -> bool {
    forall|id: u64| #[trigger]
        products.dom().contains(id) ==> products[id].total_price == products[id].weight
            * products[id].price_per_kg
}

impl LedgerView {
    /// No identifier in any store is still to be issued, each record carries
    /// its own, no two records of any kind share one, and each product has
    /// its exact total price.
    pub open spec fn consistent(self) -> bool {
        &&& issued::<Slaughterhouse>(self.slaughterhouses, self.next_id)
        &&& issued::<Animal>(self.animals, self.next_id)
        &&& issued::<MeatProduct>(self.meat_products, self.next_id)
        &&& issued::<Expense>(self.expenses, self.next_id)
        &&& issued::<QualityInspection>(self.quality_inspections, self.next_id)
        &&& issued::<Employee>(self.employees, self.next_id)
        &&& issued::<MaintenanceRecord>(self.maintenance_records, self.next_id)
        &&& issued::<Supplier>(self.suppliers, self.next_id)
        &&& issued::<Shipment>(self.shipments, self.next_id)
        &&& issued::<WasteRecord>(self.waste_records, self.next_id)
        &&& priced(self.meat_products)
        &&& forall|id: u64| #[trigger] self.holders(id) <= 1
        &&& self.finite()
    }

    /// Every store holds finitely many rows.
    pub open spec fn finite(self) -> bool {
        &&& self.slaughterhouses.dom().finite()
        &&& self.animals.dom().finite()
        &&& self.meat_products.dom().finite()
        &&& self.expenses.dom().finite()
        &&& self.quality_inspections.dom().finite()
        &&& self.employees.dom().finite()
        &&& self.maintenance_records.dom().finite()
        &&& self.suppliers.dom().finite()
        &&& self.shipments.dom().finite()
        &&& self.waste_records.dom().finite()
    }

    /// The number of stores that keep a row under `id`.
    pub open spec fn holders(self, id: u64) -> int {
        one_if(self.slaughterhouses.dom().contains(id)) + one_if(self.animals.dom().contains(id))
            + one_if(self.meat_products.dom().contains(id)) + one_if(
            self.expenses.dom().contains(id),
        ) + one_if(self.quality_inspections.dom().contains(id)) + one_if(
            self.employees.dom().contains(id),
        ) + one_if(self.maintenance_records.dom().contains(id)) + one_if(
            self.suppliers.dom().contains(id),
        ) + one_if(self.shipments.dom().contains(id)) + one_if(
            self.waste_records.dom().contains(id),
        )
    }

    /// The ledger after `rec` was created: the identifier is issued and the
    /// record kept under it.
    pub open spec fn with_slaughterhouse(self, rec: SlaughterhouseView) -> LedgerView {
        LedgerView {
            next_id: (self.next_id + 1) as u64,
            slaughterhouses: self.slaughterhouses.insert(self.next_id, rec),
            ..self
        }
    }

    /// The ledger after `rec` was created: the identifier is issued and the
    /// record kept under it.
    pub open spec fn with_animal(self, rec: AnimalView) -> LedgerView {
        LedgerView {
            next_id: (self.next_id + 1) as u64,
            animals: self.animals.insert(self.next_id, rec),
            ..self
        }
    }

    /// The ledger after `rec` was created: the identifier is issued and the
    /// record kept under it.
    pub open spec fn with_meat_product(self, rec: MeatProductView) -> LedgerView {
        LedgerView {
            next_id: (self.next_id + 1) as u64,
            meat_products: self.meat_products.insert(self.next_id, rec),
            ..self
        }
    }

    /// The ledger after `rec` was created: the identifier is issued and the
    /// record kept under it.
    pub open spec fn with_expense(self, rec: ExpenseView) -> LedgerView {
        LedgerView {
            next_id: (self.next_id + 1) as u64,
            expenses: self.expenses.insert(self.next_id, rec),
            ..self
        }
    }

    /// The ledger after `rec` was created: the identifier is issued and the
    /// record kept under it.
    pub open spec fn with_quality_inspection(self, rec: QualityInspectionView) -> LedgerView {
        LedgerView {
            next_id: (self.next_id + 1) as u64,
            quality_inspections: self.quality_inspections.insert(self.next_id, rec),
            ..self
        }
    }

    /// The ledger after `rec` was created: the identifier is issued and the
    /// record kept under it.
    pub open spec fn with_employee(self, rec: EmployeeView) -> LedgerView {
        LedgerView {
            next_id: (self.next_id + 1) as u64,
            employees: self.employees.insert(self.next_id, rec),
            ..self
        }
    }

    /// The ledger after `rec` was created: the identifier is issued and the
    /// record kept under it.
    pub open spec fn with_maintenance_record(self, rec: MaintenanceRecordView) -> LedgerView {
        LedgerView {
            next_id: (self.next_id + 1) as u64,
            maintenance_records: self.maintenance_records.insert(self.next_id, rec),
            ..self
        }
    }

    /// The ledger after `rec` was created: the identifier is issued and the
    /// record kept under it.
    pub open spec fn with_shipment(self, rec: ShipmentView) -> LedgerView {
        LedgerView {
            next_id: (self.next_id + 1) as u64,
            shipments: self.shipments.insert(self.next_id, rec),
            ..self
        }
    }

    /// The ledger after `rec` was created: the identifier is issued and the
    /// record kept under it.
    pub open spec fn with_waste_record(self, rec: WasteRecordView) -> LedgerView {
        LedgerView {
            next_id: (self.next_id + 1) as u64,
            waste_records: self.waste_records.insert(self.next_id, rec),
            ..self
        }
    }

    /// The products by ascending identifier.
    pub open spec fn products(self) -> Seq<MeatProductView> {
        values(ascending(self.meat_products))
    }

    /// The expenses by ascending identifier.
    pub open spec fn expense_rows(self) -> Seq<ExpenseView> {
        values(ascending(self.expenses))
    }

    /// The inspections by ascending identifier.
    pub open spec fn inspections(self) -> Seq<QualityInspectionView> {
        values(ascending(self.quality_inspections))
    }

    /// The maintenance records by ascending identifier.
    pub open spec fn maintenance(self) -> Seq<MaintenanceRecordView> {
        values(ascending(self.maintenance_records))
    }

    /// The waste records by ascending identifier.
    pub open spec fn waste(self) -> Seq<WasteRecordView> {
        values(ascending(self.waste_records))
    }
}

impl View for Ledger {
    type V = LedgerView;

    closed spec fn view(&self) -> LedgerView {
        LedgerView {
            next_id: self.ids@,
            slaughterhouses: self.slaughterhouses@,
            animals: self.animals@,
            meat_products: self.meat_products@,
            expenses: self.expenses@,
            quality_inspections: self.quality_inspections@,
            employees: self.employees@,
            maintenance_records: self.maintenance_records@,
            suppliers: self.suppliers@,
            shipments: self.shipments@,
            waste_records: self.waste_records@,
        }
    }
}

/// Whether every row of `raw` is the encoding of a `T` that carries the
/// identifier it is kept under, issued before `next_id`.
pub open spec fn readable<T: Record>(raw: Map<u64, Seq<u8>>, next_id: u64) -> bool {
    forall|id: u64| #[trigger]
        raw.dom().contains(id) ==> id < next_id && match T::decoding(raw[id]) {
            Some(v) => T::id_of(v) == id,
            None => false,
        }
}

/// Takes over a map of byte strings as a store of `T`, if every row of it
/// was issued before `next_id`, is the encoding of a `T` that carries the
/// identifier it is kept under, and is kept under an identifier that is not
/// among `seen`. The identifiers of the store are then added to `seen`.
pub fn adopt_issued<T: Record>(rows: StableRows, next_id: u64, seen: &mut HashSet<u64>) -> (r:
    Option<Store<T>>)
    ensures
        match r {
            Some(store) => {
                &&& readable::<T>(stored(rows), next_id)
                &&& store.wf()
                &&& store.raw() == stored(rows)
                &&& issued::<T>(store@, next_id)
                &&& store@.dom().finite()
                &&& old(seen)@.disjoint(store@.dom())
                &&& final(seen)@ == old(seen)@.union(store@.dom())
            },
            None => !readable::<T>(stored(rows), next_id) || exists|id: u64|
                old(seen)@.contains(id) && #[trigger] stored(rows).dom().contains(id),
        },
{
    broadcast use vstd::std_specs::hash::group_hash_axioms;

    let ghost raw = stored(rows);
    let store = match Store::<T>::adopt(rows) {
        Some(store) => store,
        None => {
            return None;
        },
    };
    let found = store.scan();
    proof {
        store.lemma_rows();
    }
    let n = found.len();
    let mut i: usize = 0;
    while i < n
        invariant
            n == found.len(),
            i <= n,
            store.wf(),
            store.raw() == raw,
            raw == stored(rows),
            row_views(found@) == store.rows(),
            is_listing(store.rows(), store@),
            forall|j: int|
                0 <= j < i ==> (#[trigger] found[j]).0 < next_id && T::id_of(found[j].1@)
                    == found[j].0,
            forall|j: int| 0 <= j < i ==> !old(seen)@.contains((#[trigger] found[j]).0),
            forall|id: u64|
                seen@.contains(id) <==> old(seen)@.contains(id) || exists|j: int|
                    0 <= j < i && (#[trigger] found[j]).0 == id,
        decreases n - i,
    {
        let ghost row = row_views(found@)[i as int];
        let ghost before = seen@;
        assert(store@.dom().contains(row.0));
        assert(raw.dom().contains(row.0));
        assert(store@[row.0] == row.1);
        assert(T::decoding(raw[row.0]) == Some(row.1));
        if found[i].0 >= next_id || found[i].1.id() != found[i].0 {
            return None;
        }
        if !seen.insert(found[i].0) {
            proof {
                if !old(seen)@.contains(row.0) {
                    let j = choose|j: int| 0 <= j < i && (#[trigger] found[j]).0 == row.0;
                    assert(row_views(found@)[j].0 < row_views(found@)[i as int].0);
                }
            }
            return None;
        }
        proof {
            assert forall|id: u64|
                seen@.contains(id) <==> old(seen)@.contains(id) || exists|j: int|
                    0 <= j < i + 1 && (#[trigger] found[j]).0 == id by {
                if before.contains(id) && !old(seen)@.contains(id) {
                    let j = choose|j: int| 0 <= j < i && (#[trigger] found[j]).0 == id;
                    assert(found[j].0 == id);
                }
                if id == row.0 {
                    assert(found[i as int].0 == id);
                }
            }
        }
        i += 1;
    }
    proof {
        assert forall|id: u64| #[trigger] store@.dom().contains(id) implies id < next_id
            && T::id_of(store@[id]) == id && !old(seen)@.contains(id) by {
            let j = choose|j: int| 0 <= j < store.rows().len() && store.rows()[j].0 == id;
            assert(row_views(found@)[j] == (found[j].0, found[j].1@));
        }
        assert forall|id: u64| #[trigger] raw.dom().contains(id) implies id < next_id
            && match T::decoding(raw[id]) {
            Some(v) => T::id_of(v) == id,
            None => false,
        } by {
            assert(store@.dom().contains(id));
        }
        assert forall|id: u64| seen@.contains(id) <==> old(seen)@.union(store@.dom()).contains(
            id,
        ) by {
            if store@.dom().contains(id) {
                let j = choose|j: int| 0 <= j < store.rows().len() && store.rows()[j].0 == id;
                assert(row_views(found@)[j] == (found[j].0, found[j].1@));
                assert(found[j].0 == id);
            }
            if seen@.contains(id) && !old(seen)@.contains(id) {
                let j = choose|j: int| 0 <= j < n && (#[trigger] found[j]).0 == id;
                assert(row_views(found@)[j].0 == id);
                assert(store@.dom().contains(row_views(found@)[j].0));
            }
        }
        assert(seen@ =~= old(seen)@.union(store@.dom()));
    }
    Some(store)
}

/// Issues the identifier that `rec` carries and keeps `rec` under it.
fn issue<T: Record>(ids: &mut IdAllocator, store: &mut Store<T>, rec: T) -> (r: Result<T, Message>)
    requires
        old(store).wf(),
        T::id_of(rec@) == old(ids)@,
        old(ids)@ < u64::MAX,
    ensures
        final(store).wf(),
        match r {
            Ok(out) => {
                &&& out == rec
                &&& storable::<T>(rec@)
                &&& final(ids)@ == old(ids)@ + 1
                &&& final(store)@ == old(store)@.insert(old(ids)@, rec@)
            },
            Err(e) => {
                &&& final(ids)@ == old(ids)@
                &&& final(store)@ == old(store)@
                &&& e@ == if storable::<T>(rec@) {
                    counter_failed()
                } else {
                    record_too_large()
                }
            },
        },
{
    let bytes = match encode_bounded(&rec) {
        Some(bytes) => bytes,
        None => {
            return Err(Message::error("Record exceeds the size bound"));
        },
    };
    let id = match ids.next() {
        Some(id) => id,
        None => {
            return Err(Message::error("Counter increment failed"));
        },
    };
    let _ = store.put(id, bytes.as_slice(), Ghost(rec@));
    Ok(rec)
}

impl Ledger {
    /// Every store holds finitely many rows that can be read.
    pub closed spec fn stores_wf(&self) -> bool {
        &&& self.slaughterhouses.wf()
        &&& self.animals.wf()
        &&& self.meat_products.wf()
        &&& self.expenses.wf()
        &&& self.quality_inspections.wf()
        &&& self.employees.wf()
        &&& self.maintenance_records.wf()
        &&& self.suppliers.wf()
        &&& self.shipments.wf()
        &&& self.waste_records.wf()
    }

    /// The stores can be read and what they hold is consistent.
    pub open spec fn wf(&self) -> bool {
        self.stores_wf() && self@.consistent()
    }

    /// Opens the ledger that the memory of the program holds, or an empty
    /// one where it holds none. A memory whose content cannot be read as a
    /// consistent ledger is refused.
    ///
    /// The memory is to be opened once: two ledgers over one memory do not
    /// see each other's writes.
    pub fn open() -> (r: Result<Ledger, Message>)
        ensures
            match r {
                Ok(ledger) => ledger.wf(),
                Err(e) => e@ == unreadable(),
            },
    {
        let parts = open_partitions();
        let ids = match IdAllocator::open_in(&parts, COUNTER_PARTITION) {
            Some(ids) => ids,
            None => {
                return Err(Message::error("Stored data cannot be read"));
            },
        };
        let next_id = ids.peek();
        let first = FIRST_STORE_PARTITION;
        let mut seen: HashSet<u64> = HashSet::new();
        let slaughterhouses = adopt_issued::<Slaughterhouse>(
            open_rows(&parts, first),
            next_id,
            &mut seen,
        );
        let animals = adopt_issued::<Animal>(open_rows(&parts, first + 1), next_id, &mut seen);
        let meat_products = adopt_issued::<MeatProduct>(
            open_rows(&parts, first + 2),
            next_id,
            &mut seen,
        );
        let expenses = adopt_issued::<Expense>(open_rows(&parts, first + 3), next_id, &mut seen);
        let quality_inspections = adopt_issued::<QualityInspection>(
            open_rows(&parts, first + 4),
            next_id,
            &mut seen,
        );
        let employees = adopt_issued::<Employee>(open_rows(&parts, first + 5), next_id, &mut seen);
        let maintenance_records = adopt_issued::<MaintenanceRecord>(
            open_rows(&parts, first + 6),
            next_id,
            &mut seen,
        );
        let suppliers = adopt_issued::<Supplier>(open_rows(&parts, first + 7), next_id, &mut seen);
        let shipments = adopt_issued::<Shipment>(open_rows(&parts, first + 8), next_id, &mut seen);
        let waste_records = adopt_issued::<WasteRecord>(
            open_rows(&parts, first + 9),
            next_id,
            &mut seen,
        );
        match (
            slaughterhouses,
            animals,
            meat_products,
            expenses,
            quality_inspections,
            employees,
            maintenance_records,
            suppliers,
            shipments,
            waste_records,
        ) {
            (
                Some(slaughterhouses),
                Some(animals),
                Some(meat_products),
                Some(expenses),
                Some(quality_inspections),
                Some(employees),
                Some(maintenance_records),
                Some(suppliers),
                Some(shipments),
                Some(waste_records),
            ) => {
                if !all_priced(&meat_products) {
                    return Err(Message::error("Stored data cannot be read"));
                }
                Ok(
                    Ledger {
                        ids,
                        slaughterhouses,
                        animals,
                        meat_products,
                        expenses,
                        quality_inspections,
                        employees,
                        maintenance_records,
                        suppliers,
                        shipments,
                        waste_records,
                    },
                )
            },
            _ => Err(Message::error("Stored data cannot be read")),
        }
    }

    /// The identifier that will be issued next.
    pub fn next_id(&self) -> (id: u64)
        ensures
            id == self@.next_id,
    {
        self.ids.peek()
    }

    pub fn slaughterhouses(&self) -> (store: &Store<Slaughterhouse>)
        requires
            self.wf(),
        ensures
            store.wf(),
            store@ == self@.slaughterhouses,
    {
        &self.slaughterhouses
    }

    pub fn animals(&self) -> (store: &Store<Animal>)
        requires
            self.wf(),
        ensures
            store.wf(),
            store@ == self@.animals,
    {
        &self.animals
    }

    pub fn meat_products(&self) -> (store: &Store<MeatProduct>)
        requires
            self.wf(),
        ensures
            store.wf(),
            store@ == self@.meat_products,
    {
        &self.meat_products
    }

    pub fn expenses(&self) -> (store: &Store<Expense>)
        requires
            self.wf(),
        ensures
            store.wf(),
            store@ == self@.expenses,
    {
        &self.expenses
    }

    pub fn quality_inspections(&self) -> (store: &Store<QualityInspection>)
        requires
            self.wf(),
        ensures
            store.wf(),
            store@ == self@.quality_inspections,
    {
        &self.quality_inspections
    }

    pub fn employees(&self) -> (store: &Store<Employee>)
        requires
            self.wf(),
        ensures
            store.wf(),
            store@ == self@.employees,
    {
        &self.employees
    }

    pub fn maintenance_records(&self) -> (store: &Store<MaintenanceRecord>)
        requires
            self.wf(),
        ensures
            store.wf(),
            store@ == self@.maintenance_records,
    {
        &self.maintenance_records
    }

    pub fn suppliers(&self) -> (store: &Store<Supplier>)
        requires
            self.wf(),
        ensures
            store.wf(),
            store@ == self@.suppliers,
    {
        &self.suppliers
    }

    pub fn shipments(&self) -> (store: &Store<Shipment>)
        requires
            self.wf(),
        ensures
            store.wf(),
            store@ == self@.shipments,
    {
        &self.shipments
    }

    pub fn waste_records(&self) -> (store: &Store<WasteRecord>)
        requires
            self.wf(),
        ensures
            store.wf(),
            store@ == self@.waste_records,
    {
        &self.waste_records
    }
}

/// Whether the total price of every product in the store is its weight
/// times its price.
pub fn all_priced(products: &Store<MeatProduct>) -> (ok: bool)
    requires
        products.wf(),
    ensures
        ok == priced(products@),
{
    let found = products.scan();
    proof {
        products.lemma_rows();
    }
    let n = found.len();
    let mut i: usize = 0;
    while i < n
        invariant
            n == found.len(),
            i <= n,
            row_views(found@) == products.rows(),
            is_listing(products.rows(), products@),
            forall|j: int|
                0 <= j < i ==> (#[trigger] found[j]).1.total_price == found[j].1.weight
                    * found[j].1.price_per_kg,
        decreases n - i,
    {
        let product = &found[i].1;
        assert(product.weight * product.price_per_kg <= u64::MAX) by (nonlinear_arith)
            requires
                product.weight <= u32::MAX,
                product.price_per_kg <= u32::MAX,
        ;
        if product.total_price != product.weight as u64 * product.price_per_kg as u64 {
            proof {
                let row = row_views(found@)[i as int];
                assert(products@.dom().contains(row.0));
            }
            return false;
        }
        i += 1;
    }
    proof {
        assert forall|id: u64| #[trigger] products@.dom().contains(id) implies products@[id].total_price
            == products@[id].weight * products@[id].price_per_kg by {
            let j = choose|j: int| 0 <= j < products.rows().len() && products.rows()[j].0 == id;
            assert(row_views(found@)[j] == (found[j].0, found[j].1@));
        }
    }
    true
}

// ---------------------------------------------------------------------------
// Creating records
// ---------------------------------------------------------------------------
/// After one store took a row under the identifier that was next, still no
/// two stores keep a row under one identifier.
proof fn lemma_one_more_holder(before: LedgerView, after: LedgerView)
    requires
        before.consistent(),
        forall|id: u64| #[trigger]
            after.holders(id) == before.holders(id) + one_if(id == before.next_id),
    ensures
        forall|id: u64| #[trigger] after.holders(id) <= 1,
{
    assert forall|id: u64| #[trigger] after.holders(id) <= 1 by {
        assert(before.holders(id) <= 1);
        if id == before.next_id {
            assert(before.holders(id) == 0);
        }
    }
}

/// The first of `ids` under which `products` holds nothing, if there is
/// one.
pub fn find_missing(ids: &Vec<u64>, products: &Store<MeatProduct>) -> (r: Option<u64>)
    requires
        products.wf(),
    ensures
        r == first_missing(ids@, products@),
{
    let n = ids.len();
    let mut i: usize = 0;
    assert(ids@.skip(0) =~= ids@);
    while i < n
        invariant
            n == ids.len(),
            i <= n,
            products.wf(),
            first_missing(ids@, products@) == first_missing(ids@.skip(i as int), products@),
        decreases n - i,
    {
        let ghost rest = ids@.skip(i as int);
        assert(rest[0] == ids[i as int]);
        assert(rest.drop_first() =~= ids@.skip(i + 1));
        if !products.contains(ids[i]) {
            return Some(ids[i]);
        }
        i += 1;
    }
    assert(ids@.skip(n as int).len() == 0);
    None
}

impl Ledger {
    /// Creates a slaughterhouse.
    pub fn create_slaughterhouse(&mut self, payload: CreateSlaughterhousePayload, now: u64) -> (r:
        Result<Slaughterhouse, Message>)
        requires
            old(self).wf(),
        ensures
            final(self).wf(),
            is_outcome(
                r,
                slaughterhouse_refusal(old(self)@, payload, now),
                new_slaughterhouse(payload, old(self)@.next_id, now),
            ),
            is_effect(
                r,
                old(self)@,
                old(self)@.with_slaughterhouse(
                    new_slaughterhouse(payload, old(self)@.next_id, now),
                ),
                final(self)@,
            ),
            advances(call_of(old(self)@, r, final(self)@)),
    {
        if payload.name.as_str().is_empty() || payload.contact.as_str().is_empty()
            || payload.email.as_str().is_empty() {
            return Err(Message::invalid_payload("Missing required fields"));
        }
        let id = self.ids.peek();
        if id == u64::MAX {
            return Err(Message::error("Counter increment failed"));
        }
        let rec = Slaughterhouse {
            id,
            name: payload.name,
            location: payload.location,
            contact: payload.contact,
            email: payload.email,
            capacity: payload.capacity,
            created_at: now,
        };
        let r = issue(&mut self.ids, &mut self.slaughterhouses, rec);
        proof {
            if r is Ok {
                lemma_one_more_holder(old(self)@, self@);
            }
        }
        r
    }

    /// Registers an animal received at a slaughterhouse.
    pub fn register_animal(&mut self, payload: RegisterAnimalPayload, now: u64) -> (r: Result<
        Animal,
        Message,
    >)
        requires
            old(self).wf(),
        ensures
            final(self).wf(),
            is_outcome(
                r,
                animal_refusal(old(self)@, payload, now),
                new_animal(payload, old(self)@.next_id, now),
            ),
            is_effect(
                r,
                old(self)@,
                old(self)@.with_animal(new_animal(payload, old(self)@.next_id, now)),
                final(self)@,
            ),
            advances(call_of(old(self)@, r, final(self)@)),
    {
        if payload.tag_number.as_str().is_empty() || payload.species.as_str().is_empty() {
            return Err(Message::invalid_payload("Missing required fields"));
        }
        if !self.slaughterhouses.contains(payload.slaughterhouse_id) {
            return Err(Message::not_found("Slaughterhouse not found"));
        }
        let id = self.ids.peek();
        if id == u64::MAX {
            return Err(Message::error("Counter increment failed"));
        }
        let rec = Animal {
            id,
            slaughterhouse_id: payload.slaughterhouse_id,
            tag_number: payload.tag_number,
            species: payload.species,
            weight: payload.weight,
            arrival_time: now,
            status: "received".to_owned(),
        };
        let r = issue(&mut self.ids, &mut self.animals, rec);
        proof {
            if r is Ok {
                lemma_one_more_holder(old(self)@, self@);
            }
        }
        r
    }

    /// Puts a product in stock. Its total price is its weight times its
    /// price.
    pub fn create_meat_product(&mut self, payload: CreateMeatProductPayload, now: u64) -> (r:
        Result<MeatProduct, Message>)
        requires
            old(self).wf(),
        ensures
            final(self).wf(),
            is_outcome(
                r,
                meat_product_refusal(old(self)@, payload, now),
                new_meat_product(payload, old(self)@.next_id, now),
            ),
            is_effect(
                r,
                old(self)@,
                old(self)@.with_meat_product(new_meat_product(payload, old(self)@.next_id, now)),
                final(self)@,
            ),
            advances(call_of(old(self)@, r, final(self)@)),
    {
        if payload.product_type.as_str().is_empty() || payload.weight == 0 || payload.price_per_kg
            == 0 {
            return Err(Message::invalid_payload("Invalid product data"));
        }
        if !self.animals.contains(payload.animal_id) {
            return Err(Message::not_found("Animal not found"));
        }
        if !self.slaughterhouses.contains(payload.slaughterhouse_id) {
            return Err(Message::not_found("Slaughterhouse not found"));
        }
        let id = self.ids.peek();
        if id == u64::MAX {
            return Err(Message::error("Counter increment failed"));
        }
        assert(payload.weight * payload.price_per_kg <= u64::MAX) by (nonlinear_arith)
            requires
                payload.weight <= u32::MAX,
                payload.price_per_kg <= u32::MAX,
        ;
        let rec = MeatProduct {
            id,
            animal_id: payload.animal_id,
            slaughterhouse_id: payload.slaughterhouse_id,
            product_type: payload.product_type,
            weight: payload.weight,
            price_per_kg: payload.price_per_kg,
            total_price: payload.weight as u64 * payload.price_per_kg as u64,
            status: "in-stock".to_owned(),
            created_at: now,
        };
        let r = issue(&mut self.ids, &mut self.meat_products, rec);
        proof {
            if r is Ok {
                lemma_one_more_holder(old(self)@, self@);
            }
        }
        r
    }

    /// Records an expense of a slaughterhouse.
    pub fn record_expense(&mut self, payload: RecordExpensePayload, now: u64) -> (r: Result<
        Expense,
        Message,
    >)
        requires
            old(self).wf(),
        ensures
            final(self).wf(),
            is_outcome(
                r,
                expense_refusal(old(self)@, payload, now),
                new_expense(payload, old(self)@.next_id, now),
            ),
            is_effect(
                r,
                old(self)@,
                old(self)@.with_expense(new_expense(payload, old(self)@.next_id, now)),
                final(self)@,
            ),
            advances(call_of(old(self)@, r, final(self)@)),
    {
        if payload.amount == 0 {
            return Err(Message::invalid_payload("Invalid expense amount"));
        }
        if !self.slaughterhouses.contains(payload.slaughterhouse_id) {
            return Err(Message::not_found("Slaughterhouse not found"));
        }
        let id = self.ids.peek();
        if id == u64::MAX {
            return Err(Message::error("Counter increment failed"));
        }
        let rec = Expense {
            id,
            slaughterhouse_id: payload.slaughterhouse_id,
            date: now,
            category: payload.category,
            amount: payload.amount,
            description: payload.description,
        };
        let r = issue(&mut self.ids, &mut self.expenses, rec);
        proof {
            if r is Ok {
                lemma_one_more_holder(old(self)@, self@);
            }
        }
        r
    }

    /// Records the inspection of an animal.
    pub fn perform_quality_inspection(&mut self, payload: QualityInspectionPayload, now: u64) -> (r:
        Result<QualityInspection, Message>)
        requires
            old(self).wf(),
        ensures
            final(self).wf(),
            is_outcome(
                r,
                quality_inspection_refusal(old(self)@, payload, now),
                new_quality_inspection(payload, old(self)@.next_id, now),
            ),
            is_effect(
                r,
                old(self)@,
                old(self)@.with_quality_inspection(
                    new_quality_inspection(payload, old(self)@.next_id, now),
                ),
                final(self)@,
            ),
            advances(call_of(old(self)@, r, final(self)@)),
    {
        if !self.animals.contains(payload.animal_id) {
            return Err(Message::not_found("Animal not found"));
        }
        let id = self.ids.peek();
        if id == u64::MAX {
            return Err(Message::error("Counter increment failed"));
        }
        let rec = QualityInspection {
            id,
            animal_id: payload.animal_id,
            inspector_name: payload.inspector_name,
            inspection_date: now,
            temperature: payload.temperature,
            ph_level: payload.ph_level,
            visual_inspection: payload.visual_inspection,
            passed: payload.passed,
            notes: payload.notes,
        };
        let r = issue(&mut self.ids, &mut self.quality_inspections, rec);
        proof {
            if r is Ok {
                lemma_one_more_holder(old(self)@, self@);
            }
        }
        r
    }

    /// Registers a member of the staff of a slaughterhouse.
    pub fn register_employee(&mut self, payload: EmployeePayload, now: u64) -> (r: Result<
        Employee,
        Message,
    >)
        requires
            old(self).wf(),
        ensures
            final(self).wf(),
            is_outcome(
                r,
                employee_refusal(old(self)@, payload, now),
                new_employee(payload, old(self)@.next_id, now),
            ),
            is_effect(
                r,
                old(self)@,
                old(self)@.with_employee(new_employee(payload, old(self)@.next_id, now)),
                final(self)@,
            ),
            advances(call_of(old(self)@, r, final(self)@)),
    {
        if payload.name.as_str().is_empty() || payload.role.as_str().is_empty() {
            return Err(Message::invalid_payload("Missing required fields"));
        }
        if !self.slaughterhouses.contains(payload.slaughterhouse_id) {
            return Err(Message::not_found("Slaughterhouse not found"));
        }
        let id = self.ids.peek();
        if id == u64::MAX {
            return Err(Message::error("Counter increment failed"));
        }
        let rec = Employee {
            id,
            slaughterhouse_id: payload.slaughterhouse_id,
            name: payload.name,
            role: payload.role,
            certification: payload.certification,
            hire_date: now,
            contact: payload.contact,
            status: "active".to_owned(),
        };
        let r = issue(&mut self.ids, &mut self.employees, rec);
        proof {
            if r is Ok {
                lemma_one_more_holder(old(self)@, self@);
            }
        }
        r
    }

    /// Plans the maintenance of a piece of equipment. The next one is due
    /// three months later.
    pub fn schedule_maintenance(&mut self, payload: MaintenancePayload) -> (r: Result<
        MaintenanceRecord,
        Message,
    >)
        requires
            old(self).wf(),
        ensures
            final(self).wf(),
            is_outcome(
                r,
                maintenance_refusal(old(self)@, payload),
                new_maintenance_record(payload, old(self)@.next_id),
            ),
            is_effect(
                r,
                old(self)@,
                old(self)@.with_maintenance_record(
                    new_maintenance_record(payload, old(self)@.next_id),
                ),
                final(self)@,
            ),
            advances(call_of(old(self)@, r, final(self)@)),
    {
        if payload.equipment_name.as_str().is_empty() || payload.maintenance_type.as_str().is_empty() {
            return Err(Message::invalid_payload("Missing required fields"));
        }
        if payload.scheduled_date > u64::MAX - MAINTENANCE_INTERVAL {
            return Err(Message::invalid_payload("Scheduled date out of range"));
        }
        if !self.slaughterhouses.contains(payload.slaughterhouse_id) {
            return Err(Message::not_found("Slaughterhouse not found"));
        }
        let id = self.ids.peek();
        if id == u64::MAX {
            return Err(Message::error("Counter increment failed"));
        }
        let rec = MaintenanceRecord {
            id,
            slaughterhouse_id: payload.slaughterhouse_id,
            equipment_name: payload.equipment_name,
            maintenance_type: payload.maintenance_type,
            cost: payload.estimated_cost,
            date: payload.scheduled_date,
            next_maintenance_date: payload.scheduled_date + MAINTENANCE_INTERVAL,
            performed_by: "".to_owned(),
            status: "scheduled".to_owned(),
            notes: payload.notes,
        };
        let r = issue(&mut self.ids, &mut self.maintenance_records, rec);
        proof {
            if r is Ok {
                lemma_one_more_holder(old(self)@, self@);
            }
        }
        r
    }

    /// Prepares the shipment of products that are in the store. Its
    /// tracking number is made of its identifier.
    pub fn create_shipment(&mut self, payload: ShipmentPayload, now: u64) -> (r: Result<
        Shipment,
        Message,
    >)
        requires
            old(self).wf(),
        ensures
            final(self).wf(),
            is_outcome(
                r,
                shipment_refusal(old(self)@, payload, now),
                new_shipment(payload, old(self)@.next_id, now),
            ),
            is_effect(
                r,
                old(self)@,
                old(self)@.with_shipment(new_shipment(payload, old(self)@.next_id, now)),
                final(self)@,
            ),
            advances(call_of(old(self)@, r, final(self)@)),
    {
        match find_missing(&payload.product_ids, &self.meat_products) {
            Some(missing) => {
                return Err(Message::NotFound(product_not_found(missing)));
            },
            None => {},
        }
        if !self.slaughterhouses.contains(payload.slaughterhouse_id) {
            return Err(Message::not_found("Slaughterhouse not found"));
        }
        let id = self.ids.peek();
        if id == u64::MAX {
            return Err(Message::error("Counter increment failed"));
        }
        let rec = Shipment {
            id,
            slaughterhouse_id: payload.slaughterhouse_id,
            product_ids: payload.product_ids,
            destination: payload.destination,
            shipping_date: now,
            expected_delivery: payload.expected_delivery,
            temperature_log: Vec::new(),
            status: "preparing".to_owned(),
            tracking_number: tracking_number(id),
        };
        let r = issue(&mut self.ids, &mut self.shipments, rec);
        proof {
            if r is Ok {
                lemma_one_more_holder(old(self)@, self@);
            }
        }
        r
    }

    /// Records the disposal of waste of a slaughterhouse.
    pub fn manage_waste_disposal(&mut self, payload: WasteDisposalPayload, now: u64) -> (r: Result<
        WasteRecord,
        Message,
    >)
        requires
            old(self).wf(),
        ensures
            final(self).wf(),
            is_outcome(
                r,
                waste_refusal(old(self)@, payload, now),
                new_waste_record(payload, old(self)@.next_id, now),
            ),
            is_effect(
                r,
                old(self)@,
                old(self)@.with_waste_record(new_waste_record(payload, old(self)@.next_id, now)),
                final(self)@,
            ),
            advances(call_of(old(self)@, r, final(self)@)),
    {
        if !self.slaughterhouses.contains(payload.slaughterhouse_id) {
            return Err(Message::not_found("Slaughterhouse not found"));
        }
        let id = self.ids.peek();
        if id == u64::MAX {
            return Err(Message::error("Counter increment failed"));
        }
        let rec = WasteRecord {
            id,
            slaughterhouse_id: payload.slaughterhouse_id,
            waste_type: payload.waste_type,
            quantity: payload.quantity,
            disposal_method: payload.disposal_method,
            disposal_date: now,
            handled_by: payload.handled_by,
            cost: payload.cost,
        };
        let r = issue(&mut self.ids, &mut self.waste_records, rec);
        proof {
            if r is Ok {
                lemma_one_more_holder(old(self)@, self@);
            }
        }
        r
    }
}

// ---------------------------------------------------------------------------
// Reports
// ---------------------------------------------------------------------------
/// The weight of a product times its price.
pub open spec fn weight_times_price() -> spec_fn(MeatProductView) -> int {
    |p: MeatProductView| p.weight * p.price_per_kg
}

/// The sum of weight times price over the products of slaughterhouse `sh`.
pub open spec fn weighed_revenue_of(products: Seq<MeatProductView>, sh: u64) -> int {
    sum_of(of_house::<MeatProduct>(products, sh), weight_times_price())
}

/// Whether one of the four totals of the financial report of `sh` is more
/// than a `u64` holds.
pub open spec fn finance_out_of_range(v: LedgerView, sh: u64) -> bool {
    ||| revenue_of(v.products(), sh) > u64::MAX
    ||| expenses_of(v.expense_rows(), sh) > u64::MAX
    ||| maintenance_costs_of(v.maintenance(), sh) > u64::MAX
    ||| waste_costs_of(v.waste(), sh) > u64::MAX
}

/// In a consistent ledger the revenue of a slaughterhouse is the sum of
/// weight times price over its products.
pub proof fn lemma_revenue_is_weight_times_price(v: LedgerView, sh: u64)
    requires
        v.consistent(),
    ensures
        revenue_of(v.products(), sh) == weighed_revenue_of(v.products(), sh),
{
    let rows = ascending(v.meat_products);
    lemma_listing_exists(v.meat_products);
    let own = of_house::<MeatProduct>(v.products(), sh);
    lemma_filter_members(v.products(), in_house::<MeatProduct>(sh));
    assert forall|i: int| 0 <= i < own.len() implies amount_fn::<MeatProduct>()(
        #[trigger] own[i],
    ) == weight_times_price()(own[i]) by {
        assert(v.products().contains(own[i]));
        let k = choose|k: int| 0 <= k < v.products().len() && v.products()[k] == own[i];
        assert(rows[k].1 == own[i]);
        assert(v.meat_products.dom().contains(rows[k].0));
    }
    lemma_sum_agree(own, amount_fn::<MeatProduct>(), weight_times_price());
}

impl Ledger {
    /// The total price of the products of slaughterhouse `sh`: the sum of
    /// weight times price over them.
    pub fn calculate_total_revenue(&self, sh: u64) -> (r: Result<u64, Message>)
        requires
            self.wf(),
        ensures
            match r {
                Ok(total) => {
                    &&& self@.slaughterhouses.dom().contains(sh)
                    &&& total == revenue_of(self@.products(), sh)
                    &&& total == weighed_revenue_of(self@.products(), sh)
                },
                Err(e) => if self@.slaughterhouses.dom().contains(sh) {
                    e@ == total_out_of_range() && revenue_of(self@.products(), sh) > u64::MAX
                } else {
                    e@ == no_slaughterhouse()
                },
            },
    {
        if !self.slaughterhouses.contains(sh) {
            return Err(Message::not_found("Slaughterhouse not found"));
        }
        proof {
            self.meat_products.lemma_rows();
            lemma_revenue_is_weight_times_price(self@, sh);
        }
        let products = self.meat_products.records();
        match total(&select_house(&products, sh)) {
            Some(sum) => Ok(sum),
            None => Err(Message::error("Total out of range")),
        }
    }

    /// The total amount of the expenses of slaughterhouse `sh`.
    pub fn calculate_total_expenses(&self, sh: u64) -> (r: Result<u64, Message>)
        requires
            self.wf(),
        ensures
            match r {
                Ok(total) => {
                    &&& self@.slaughterhouses.dom().contains(sh)
                    &&& total == expenses_of(self@.expense_rows(), sh)
                },
                Err(e) => if self@.slaughterhouses.dom().contains(sh) {
                    e@ == total_out_of_range() && expenses_of(self@.expense_rows(), sh)
                        > u64::MAX
                } else {
                    e@ == no_slaughterhouse()
                },
            },
    {
        if !self.slaughterhouses.contains(sh) {
            return Err(Message::not_found("Slaughterhouse not found"));
        }
        let expenses = self.expenses.records();
        match total(&select_house(&expenses, sh)) {
            Some(sum) => Ok(sum),
            None => Err(Message::error("Total out of range")),
        }
    }

    /// The financial report of slaughterhouse `sh`.
    pub fn generate_financial_analytics(&self, sh: u64) -> (r: Result<FinancialMetrics, Message>)
        requires
            self.wf(),
        ensures
            match r {
                Ok(m) => {
                    &&& self@.slaughterhouses.dom().contains(sh)
                    &&& is_financial_report(
                        m,
                        self@.products(),
                        self@.expense_rows(),
                        self@.maintenance(),
                        self@.waste(),
                        sh,
                    )
                },
                Err(e) => if self@.slaughterhouses.dom().contains(sh) {
                    e@ == total_out_of_range() && finance_out_of_range(self@, sh)
                } else {
                    e@ == no_slaughterhouse()
                },
            },
    {
        if !self.slaughterhouses.contains(sh) {
            return Err(Message::not_found("Slaughterhouse not found"));
        }
        let products = self.meat_products.records();
        let expenses = self.expenses.records();
        let maintenance = self.maintenance_records.records();
        let waste = self.waste_records.records();
        match financial_metrics(&products, &expenses, &maintenance, &waste, sh) {
            Some(m) => Ok(m),
            None => Err(Message::error("Total out of range")),
        }
    }

    /// The quality report of slaughterhouse `sh` from `start` to `end`.
    pub fn get_quality_metrics(&self, sh: u64, start: u64, end: u64) -> (r: Result<
        QualityMetrics,
        Message,
    >)
        requires
            self.wf(),
        ensures
            match r {
                Ok(m) => {
                    &&& self@.slaughterhouses.dom().contains(sh)
                    &&& is_quality_report(m, self@.inspections(), self@.animals, sh, start, end)
                },
                Err(e) => !self@.slaughterhouses.dom().contains(sh) && e@ == no_slaughterhouse(),
            },
    {
        if !self.slaughterhouses.contains(sh) {
            return Err(Message::not_found("Slaughterhouse not found"));
        }
        let inspections = self.quality_inspections.records();
        Ok(quality_metrics(&inspections, &self.animals, sh, start, end))
    }

    /// The maintenance report of slaughterhouse `sh` from `start` to `end`.
    pub fn get_maintenance_analytics(&self, sh: u64, start: u64, end: u64) -> (r: Result<
        MaintenanceAnalytics,
        Message,
    >)
        requires
            self.wf(),
        ensures
            match r {
                Ok(m) => {
                    &&& self@.slaughterhouses.dom().contains(sh)
                    &&& is_maintenance_report(m, self@.maintenance(), sh, start, end)
                },
                Err(e) => if self@.slaughterhouses.dom().contains(sh) {
                    e@ == total_out_of_range() && total_of::<MaintenanceRecord>(
                        self@.maintenance().filter(maintained(sh, start, end)),
                    ) > u64::MAX
                } else {
                    e@ == no_slaughterhouse()
                },
            },
    {
        if !self.slaughterhouses.contains(sh) {
            return Err(Message::not_found("Slaughterhouse not found"));
        }
        let records = self.maintenance_records.records();
        match maintenance_analytics(&records, sh, start, end) {
            Some(m) => Ok(m),
            None => Err(Message::error("Total out of range")),
        }
    }

    /// The inventory report of slaughterhouse `sh`.
    pub fn get_inventory_analytics(&self, sh: u64) -> (r: Result<InventoryAnalytics, Message>)
        requires
            self.wf(),
        ensures
            match r {
                Ok(m) => {
                    &&& self@.slaughterhouses.dom().contains(sh)
                    &&& is_inventory_report(m, self@.products(), sh)
                },
                Err(e) => if self@.slaughterhouses.dom().contains(sh) {
                    e@ == total_out_of_range() && revenue_of(self@.products(), sh) > u64::MAX
                } else {
                    e@ == no_slaughterhouse()
                },
            },
    {
        if !self.slaughterhouses.contains(sh) {
            return Err(Message::not_found("Slaughterhouse not found"));
        }
        let products = self.meat_products.records();
        match inventory_analytics(&products, sh) {
            Some(m) => Ok(m),
            None => Err(Message::error("Total out of range")),
        }
    }
}

} // verus!
