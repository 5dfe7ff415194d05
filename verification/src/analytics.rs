//! The figures derived from the records: what each one is, and the code
//! that computes it from the rows of the stores.
//!
//! Money is in millionths of the currency unit, weight in grams,
//! temperature and pH in thousandths. A rate is a whole percentage, but the
//! profit margin, which is in thousandths of a percent. Ratios are rounded
//! to the nearest integer, a tie away from zero.
use vstd::prelude::*;
use vstd::pervasive::unreached;
use crate::charges::{amount_fn, of_house, select_house, total, total_of};
use crate::grouping::{
    count_by, firsts, group_by, is_count_table, is_grouping, is_index, is_total_table, keyed,
    keys_of, total_by, with_key, MaintenanceKey, ProductKey,
};
use crate::records::animal::{Animal, AnimalView};
use crate::records::expense::{Expense, ExpenseView};
use crate::records::maintenance_record::{MaintenanceRecord, MaintenanceRecordView};
use crate::records::meat_product::{MeatProduct, MeatProductView};
use crate::records::quality_inspection::{QualityInspection, QualityInspectionView};
use crate::records::waste_record::{WasteRecord, WasteRecordView};
use crate::store::Store;
use crate::tally::{
    lemma_filter_members, lemma_round_div_bound, lemma_sum_of_part, lemma_sum_step, round_div,
    rounded_ratio, rounded_signed_ratio, select, sum_of, views,
};

verus! {

/// A product that weighs less than this, in grams, is low in stock.
pub const LOW_STOCK_WEIGHT: u32 = 10_000;

/// The profit margin is in this fraction of the whole: thousandths of a
/// percent.
pub const MARGIN_SCALE: u64 = 100_000;

/// The divisor that turns thousandths into units.
pub const THOUSAND: u64 = 1_000;

// ---------------------------------------------------------------------------
// Finance
// ---------------------------------------------------------------------------
/// The financial report of a slaughterhouse. Amounts of money are in
/// millionths of the currency unit.
#[derive(Debug, PartialEq, Eq)]
pub struct FinancialMetrics {
    pub total_revenue: u64,
    pub total_expenses: u64,
    /// In thousandths of a percent; nothing where there is no revenue.
    pub profit_margin: Option<u64>,
    /// The expenses less the costs of maintenance and of waste; below zero
    /// where those costs are more than the expenses recorded.
    pub operating_costs: i128,
    pub maintenance_costs: u64,
    /// Always zero: the ledger keeps no payroll.
    pub labor_costs: u64,
    pub waste_management_costs: u64,
    /// The revenue for each type of product.
    pub revenue_by_product: Vec<(String, u64)>,
    /// Always empty: expenses are not reported by category.
    pub expenses_by_category: Vec<(String, u64)>,
}

/// The total price of the products of slaughterhouse `sh`.
pub open spec fn revenue_of(products: Seq<MeatProductView>, sh: u64) -> int {
    total_of::<MeatProduct>(of_house::<MeatProduct>(products, sh))
}

/// The total amount of the expenses of slaughterhouse `sh`.
pub open spec fn expenses_of(expenses: Seq<ExpenseView>, sh: u64) -> int {
    total_of::<Expense>(of_house::<Expense>(expenses, sh))
}

/// The total cost of the maintenance of slaughterhouse `sh`.
pub open spec fn maintenance_costs_of(records: Seq<MaintenanceRecordView>, sh: u64) -> int {
    total_of::<MaintenanceRecord>(of_house::<MaintenanceRecord>(records, sh))
}

/// The total cost of the disposal of the waste of slaughterhouse `sh`.
pub open spec fn waste_costs_of(records: Seq<WasteRecordView>, sh: u64) -> int {
    total_of::<WasteRecord>(of_house::<WasteRecord>(records, sh))
}

/// What is left of the revenue after the expenses, as a part of the
/// revenue, in thousandths of a percent and never below zero. Without
/// revenue there is no margin.
pub open spec fn profit_margin_of(revenue: int, expenses: int) -> Option<int> {
    if revenue == 0 {
        None
    } else {
        let exact = round_div((revenue - expenses) * MARGIN_SCALE, revenue);
        Some(
            if exact < 0 {
                0
            } else {
                exact
            },
        )
    }
}

/// The expenses that are neither maintenance nor disposal of waste.
pub open spec fn operating_costs_of(expenses: int, maintenance: int, waste: int) -> int {
    expenses - maintenance - waste
}

/// Whether `m` is the financial report of slaughterhouse `sh`.
pub open spec fn is_financial_report(
    m: FinancialMetrics,
    products: Seq<MeatProductView>,
    expenses: Seq<ExpenseView>,
    maintenance: Seq<MaintenanceRecordView>,
    waste: Seq<WasteRecordView>,
    sh: u64,
) -> bool {
    &&& m.total_revenue == revenue_of(products, sh)
    &&& m.total_expenses == expenses_of(expenses, sh)
    &&& m.maintenance_costs == maintenance_costs_of(maintenance, sh)
    &&& m.waste_management_costs == waste_costs_of(waste, sh)
    &&& m.operating_costs == operating_costs_of(
        m.total_expenses as int,
        m.maintenance_costs as int,
        m.waste_management_costs as int,
    )
    &&& match profit_margin_of(m.total_revenue as int, m.total_expenses as int) {
        Some(margin) => m.profit_margin == Some(margin as u64) && margin <= u64::MAX,
        None => m.profit_margin is None,
    }
    &&& m.labor_costs == 0
    &&& is_total_table::<ProductKey, MeatProduct>(
        of_house::<MeatProduct>(products, sh),
        ProductKey::ProductType,
        m.revenue_by_product@,
    )
    &&& m.expenses_by_category@.len() == 0
}

/// The profit margin for a revenue and for expenses.
pub fn profit_margin(revenue: u64, expenses: u64) -> (r: Option<u64>)
    ensures
        match profit_margin_of(revenue as int, expenses as int) {
            Some(margin) => r == Some(margin as u64) && 0 <= margin <= MARGIN_SCALE,
            None => r is None,
        },
{
    if revenue == 0 {
        None
    } else if expenses >= revenue {
        proof {
            let n = (revenue - expenses) * MARGIN_SCALE;
            assert(n <= 0) by (nonlinear_arith)
                requires
                    n == (revenue - expenses) * MARGIN_SCALE,
                    revenue - expenses <= 0,
            ;
            if n == 0 {
                assert((0 + revenue as int) / (2 * revenue as int) == 0) by (nonlinear_arith)
                    requires
                        revenue > 0,
                ;
            } else {
                assert((2 * (-n) + revenue as int) / (2 * revenue as int) >= 0)
                    by (nonlinear_arith)
                    requires
                        revenue > 0,
                        n < 0,
                ;
            }
        }
        Some(0)
    } else {
        let gain: u128 = (revenue - expenses) as u128;
        let n: u128 = gain * (MARGIN_SCALE as u128);
        proof {
            assert(0 <= (gain as int) * (MARGIN_SCALE as int) <= (MARGIN_SCALE as int) * (
            revenue as int)) by (nonlinear_arith)
                requires
                    0 < gain <= revenue,
            ;
            lemma_round_div_bound(n as int, revenue as int, MARGIN_SCALE as int);
        }
        let margin = rounded_ratio(n, revenue as u128);
        Some(margin as u64)
    }
}

/// The financial report of slaughterhouse `sh`, unless one of its four
/// totals is more than a `u64` holds.
pub fn financial_metrics(
    products: &Vec<MeatProduct>,
    expenses: &Vec<Expense>,
    maintenance: &Vec<MaintenanceRecord>,
    waste: &Vec<WasteRecord>,
    sh: u64,
) -> (r: Option<FinancialMetrics>)
    ensures
        match r {
            Some(m) => is_financial_report(
                m,
                views(products@),
                views(expenses@),
                views(maintenance@),
                views(waste@),
                sh,
            ),
            None => {
                ||| revenue_of(views(products@), sh) > u64::MAX
                ||| expenses_of(views(expenses@), sh) > u64::MAX
                ||| maintenance_costs_of(views(maintenance@), sh) > u64::MAX
                ||| waste_costs_of(views(waste@), sh) > u64::MAX
            },
        },
{
    let sold = select_house(products, sh);
    let total_revenue = total(&sold)?;
    let total_expenses = total(&select_house(expenses, sh))?;
    let maintenance_costs = total(&select_house(maintenance, sh))?;
    let waste_management_costs = total(&select_house(waste, sh))?;
    let revenue_by_product = match total_by(&sold, ProductKey::ProductType) {
        Some(table) => table,
        None => {
            proof {
                let key = choose|key: Seq<char>|
                    total_of::<MeatProduct>(
                        #[trigger] keyed::<ProductKey, MeatProduct>(
                            views(sold@),
                            ProductKey::ProductType,
                            key,
                        ),
                    ) > u64::MAX;
                assert forall|v: MeatProductView| #[trigger]
                    amount_fn::<MeatProduct>()(v) >= 0 by {}
                lemma_sum_of_part(
                    views(sold@),
                    with_key::<ProductKey, MeatProduct>(ProductKey::ProductType, key),
                    amount_fn::<MeatProduct>(),
                );
            }
            unreached()
        },
    };
    Some(
        FinancialMetrics {
            total_revenue,
            total_expenses,
            profit_margin: profit_margin(total_revenue, total_expenses),
            operating_costs: total_expenses as i128 - maintenance_costs as i128
                - waste_management_costs as i128,
            maintenance_costs,
            labor_costs: 0,
            waste_management_costs,
            revenue_by_product,
            expenses_by_category: Vec::new(),
        },
    )
}

// ---------------------------------------------------------------------------
// Quality
// ---------------------------------------------------------------------------
/// The quality report of a slaughterhouse over a span of time.
#[derive(Debug, PartialEq, Eq)]
pub struct QualityMetrics {
    pub total_inspections: u64,
    pub passed_inspections: u64,
    /// A whole percentage.
    pub failure_rate: u64,
    /// In whole degrees.
    pub average_temperature: i64,
    /// In whole pH units.
    pub average_ph_level: i64,
    /// The inspections that the report is about, by ascending identifier.
    pub inspections: Vec<QualityInspection>,
}

/// The condition of being the inspection of an animal of slaughterhouse
/// `sh`, made from `start` to `end`, both included.
pub open spec fn inspected(animals: Map<u64, AnimalView>, sh: u64, start: u64, end: u64)
    -> spec_fn(QualityInspectionView) -> bool {
    |i: QualityInspectionView|
        animals.dom().contains(i.animal_id) && animals[i.animal_id].slaughterhouse_id == sh
            && start <= i.inspection_date <= end
}

/// The condition of having passed.
pub open spec fn has_passed() -> spec_fn(QualityInspectionView) -> bool {
    |i: QualityInspectionView| i.passed
}

/// The temperature found at an inspection, in thousandths of a degree.
pub open spec fn temperature_fn() -> spec_fn(QualityInspectionView) -> int {
    |i: QualityInspectionView| i.temperature as int
}

/// The pH found at an inspection, in thousandths.
pub open spec fn ph_fn() -> spec_fn(QualityInspectionView) -> int {
    |i: QualityInspectionView| i.ph_level as int
}

/// The part of `total` inspections that did not pass, as a percentage; 0
/// where there was no inspection.
pub open spec fn failure_rate_of(total: int, passed: int) -> int {
    if total == 0 {
        0
    } else {
        round_div(100 * (total - passed), total)
    }
}

/// The mean of `count` readings in thousandths that add up to `sum`, in
/// whole units; 0 where there is no reading.
pub open spec fn rounded_mean(sum: int, count: int) -> int {
    if count == 0 {
        0
    } else {
        round_div(sum, count * THOUSAND)
    }
}

/// Whether `m` is the quality report of slaughterhouse `sh` from `start` to
/// `end`.
pub open spec fn is_quality_report(
    m: QualityMetrics,
    inspections: Seq<QualityInspectionView>,
    animals: Map<u64, AnimalView>,
    sh: u64,
    start: u64,
    end: u64,
) -> bool {
    let chosen = inspections.filter(inspected(animals, sh, start, end));
    &&& views(m.inspections@) == chosen
    &&& m.total_inspections == chosen.len()
    &&& m.passed_inspections == chosen.filter(has_passed()).len()
    &&& m.failure_rate == failure_rate_of(
        m.total_inspections as int,
        m.passed_inspections as int,
    )
    &&& m.average_temperature == rounded_mean(sum_of(chosen, temperature_fn()), chosen.len() as int)
    &&& m.average_ph_level == rounded_mean(sum_of(chosen, ph_fn()), chosen.len() as int)
}

/// The part of `total` inspections that did not pass, as a percentage.
pub fn failure_rate(total: u64, passed: u64) -> (rate: u64)
    requires
        passed <= total,
    ensures
        rate == failure_rate_of(total as int, passed as int),
        rate <= 100,
{
    if total == 0 {
        0
    } else {
        let failed: u128 = (total - passed) as u128;
        proof {
            lemma_round_div_bound(100 * failed as int, total as int, 100);
        }
        rounded_ratio(100 * failed, total as u128) as u64
    }
}

/// The sum of a reading over the inspections.
fn sum_readings<F: Fn(&QualityInspection) -> i64>(
    rows: &Vec<QualityInspection>,
    reading: F,
    Ghost(g): Ghost<spec_fn(QualityInspectionView) -> int>,
) -> (sum: i128)
    requires
        forall|x: &QualityInspection| #[trigger] reading.requires((x,)),
        forall|x: &QualityInspection, y: i64| #[trigger]
            reading.ensures((x,), y) ==> y == g(x@) && -0x8000_0000 <= y <= 0xffff_ffff,
    ensures
        sum == sum_of(views(rows@), g),
        -0x1_0000_0000 * rows.len() <= sum <= 0x1_0000_0000 * rows.len(),
{
    let n = rows.len();
    let mut sum: i128 = 0;
    let mut i: usize = 0;
    while i < n
        invariant
            n == rows.len(),
            i <= n,
            forall|x: &QualityInspection| #[trigger] reading.requires((x,)),
            forall|x: &QualityInspection, y: i64| #[trigger]
                reading.ensures((x,), y) ==> y == g(x@) && -0x8000_0000 <= y <= 0xffff_ffff,
            sum == sum_of(views(rows@).take(i as int), g),
            -0x1_0000_0000 * i <= sum <= 0x1_0000_0000 * i,
        decreases n - i,
    {
        proof {
            lemma_sum_step(views(rows@), i as int, g);
        }
        let y = reading(&rows[i]);
        sum = sum + y as i128;
        i += 1;
    }
    assert(views(rows@).take(n as int) =~= views(rows@));
    sum
}

/// The mean of the readings in thousandths that add up to `sum`, in whole
/// units.
fn mean_reading(sum: i128, count: usize) -> (mean: i64)
    requires
        -0x1_0000_0000 * count <= sum <= 0x1_0000_0000 * count,
    ensures
        mean == rounded_mean(sum as int, count as int),
{
    if count == 0 {
        0
    } else {
        let d: i128 = count as i128 * THOUSAND as i128;
        proof {
            assert(-0x1_0000_0000 * (d as int) <= sum as int <= 0x1_0000_0000 * (d as int))
                by (nonlinear_arith)
                requires
                    d == count * 1000,
                    count > 0,
                    -0x1_0000_0000 * count <= sum <= 0x1_0000_0000 * count,
            ;
            lemma_round_div_bound(sum as int, d as int, 0x1_0000_0000);
        }
        rounded_signed_ratio(sum, d) as i64
    }
}

/// The quality report of slaughterhouse `sh` from `start` to `end`.
pub fn quality_metrics(
    inspections: &Vec<QualityInspection>,
    animals: &Store<Animal>,
    sh: u64,
    start: u64,
    end: u64,
) -> (m: QualityMetrics)
    requires
        animals.wf(),
    ensures
        is_quality_report(m, views(inspections@), animals@, sh, start, end),
{
    let in_range = |r: &QualityInspection| -> (b: bool)
        ensures
            b == inspected(animals@, sh, start, end)(r@),
        {
            let owned = match animals.get(r.animal_id) {
                Some(animal) => animal.slaughterhouse_id == sh,
                None => false,
            };
            owned && start <= r.inspection_date && r.inspection_date <= end
        };
    let chosen = select(inspections, in_range, Ghost(inspected(animals@, sh, start, end)));
    let passed = |r: &QualityInspection| -> (b: bool)
        ensures
            b == has_passed()(r@),
        {
            r.passed
        };
    let good = select(&chosen, passed, Ghost(has_passed()));
    proof {
        lemma_filter_members(views(chosen@), has_passed());
    }
    let temperature = |r: &QualityInspection| -> (y: i64)
        ensures
            y == temperature_fn()(r@),
            -0x8000_0000 <= y <= 0xffff_ffff,
        {
            r.temperature as i64
        };
    let ph = |r: &QualityInspection| -> (y: i64)
        ensures
            y == ph_fn()(r@),
            -0x8000_0000 <= y <= 0xffff_ffff,
        {
            r.ph_level as i64
        };
    let total_inspections = chosen.len() as u64;
    let passed_inspections = good.len() as u64;
    let temperature_sum = sum_readings(&chosen, temperature, Ghost(temperature_fn()));
    let ph_sum = sum_readings(&chosen, ph, Ghost(ph_fn()));
    assert(views(good@).len() == good.len());
    assert(views(chosen@).len() == chosen.len());
    QualityMetrics {
        total_inspections,
        passed_inspections,
        failure_rate: failure_rate(total_inspections, passed_inspections),
        average_temperature: mean_reading(temperature_sum, chosen.len()),
        average_ph_level: mean_reading(ph_sum, chosen.len()),
        inspections: chosen,
    }
}

// ---------------------------------------------------------------------------
// Maintenance
// ---------------------------------------------------------------------------
/// The maintenance report of a slaughterhouse over a span of time.
#[derive(Debug, PartialEq, Eq)]
pub struct MaintenanceAnalytics {
    /// In millionths of the currency unit.
    pub total_maintenance_cost: u64,
    /// The number of records for each type of maintenance.
    pub maintenance_by_type: Vec<(String, u64)>,
    /// A whole percentage for each piece of equipment.
    pub equipment_reliability: Vec<(String, u64)>,
    /// The records that are scheduled or in progress.
    pub pending_maintenance: Vec<MaintenanceRecord>,
    /// The records of each piece of equipment.
    pub equipment_history: Vec<(String, Vec<MaintenanceRecord>)>,
}

/// The condition of being maintenance of slaughterhouse `sh`, dated from
/// `start` to `end`, both included.
pub open spec fn maintained(sh: u64, start: u64, end: u64) -> spec_fn(
    MaintenanceRecordView,
) -> bool {
    |m: MaintenanceRecordView| m.slaughterhouse_id == sh && start <= m.date <= end
}

/// The condition of being planned or under way.
pub open spec fn is_pending() -> spec_fn(MaintenanceRecordView) -> bool {
    |m: MaintenanceRecordView| m.status == "scheduled"@ || m.status == "in-progress"@
}

/// The condition of being an emergency repair.
pub open spec fn is_emergency() -> spec_fn(MaintenanceRecordView) -> bool {
    |m: MaintenanceRecordView| m.maintenance_type == "emergency"@
}

/// The part of the maintenance of one piece of equipment that was no
/// emergency repair, as a percentage.
pub open spec fn reliability_of(history: Seq<MaintenanceRecordView>) -> int {
    round_div(100 * (history.len() - history.filter(is_emergency()).len()), history.len() as int)
}

/// Whether `table` holds the reliability of each piece of equipment that
/// occurs in `rows`.
pub open spec fn is_reliability_table(
    rows: Seq<MaintenanceRecordView>,
    table: Seq<(String, u64)>,
) -> bool {
    &&& is_index(
        keys_of::<MaintenanceKey, MaintenanceRecord>(rows, MaintenanceKey::EquipmentName),
        firsts(table),
    )
    &&& forall|j: int|
        0 <= j < table.len() ==> (#[trigger] table[j]).1 == reliability_of(
            keyed::<MaintenanceKey, MaintenanceRecord>(
                rows,
                MaintenanceKey::EquipmentName,
                table[j].0@,
            ),
        )
}

/// Whether `m` is the maintenance report of slaughterhouse `sh` from
/// `start` to `end`.
pub open spec fn is_maintenance_report(
    m: MaintenanceAnalytics,
    records: Seq<MaintenanceRecordView>,
    sh: u64,
    start: u64,
    end: u64,
) -> bool {
    let chosen = records.filter(maintained(sh, start, end));
    &&& m.total_maintenance_cost == total_of::<MaintenanceRecord>(chosen)
    &&& is_count_table::<MaintenanceKey, MaintenanceRecord>(
        chosen,
        MaintenanceKey::MaintenanceType,
        m.maintenance_by_type@,
    )
    &&& is_reliability_table(chosen, m.equipment_reliability@)
    &&& views(m.pending_maintenance@) == chosen.filter(is_pending())
    &&& is_grouping::<MaintenanceKey, MaintenanceRecord>(
        chosen,
        MaintenanceKey::EquipmentName,
        m.equipment_history@,
    )
}

/// The reliability of the piece of equipment with this history.
pub fn reliability(history: &Vec<MaintenanceRecord>) -> (rate: u64)
    requires
        history.len() > 0,
    ensures
        rate == reliability_of(views(history@)),
        rate <= 100,
{
    let emergency = "emergency".to_owned();
    let urgent = |r: &MaintenanceRecord| -> (b: bool)
        ensures
            b == is_emergency()(r@),
        {
            r.maintenance_type == emergency
        };
    let repairs = select(history, urgent, Ghost(is_emergency()));
    proof {
        lemma_filter_members(views(history@), is_emergency());
        assert(views(repairs@).len() == repairs.len());
        assert(views(history@).len() == history.len());
    }
    let count: u128 = history.len() as u128;
    let planned: u128 = (history.len() - repairs.len()) as u128;
    proof {
        lemma_round_div_bound(100 * planned as int, count as int, 100);
    }
    rounded_ratio(100 * planned, count) as u64
}

/// The maintenance report of slaughterhouse `sh` from `start` to `end`,
/// unless its total cost is more than a `u64` holds.
pub fn maintenance_analytics(records: &Vec<MaintenanceRecord>, sh: u64, start: u64, end: u64) -> (r:
    Option<MaintenanceAnalytics>)
    ensures
        match r {
            Some(m) => is_maintenance_report(m, views(records@), sh, start, end),
            None => total_of::<MaintenanceRecord>(
                views(records@).filter(maintained(sh, start, end)),
            ) > u64::MAX,
        },
{
    let in_range = |r: &MaintenanceRecord| -> (b: bool)
        ensures
            b == maintained(sh, start, end)(r@),
        {
            r.slaughterhouse_id == sh && start <= r.date && r.date <= end
        };
    let chosen = select(records, in_range, Ghost(maintained(sh, start, end)));
    let total_maintenance_cost = total(&chosen)?;
    let scheduled = "scheduled".to_owned();
    let in_progress = "in-progress".to_owned();
    let waiting = |r: &MaintenanceRecord| -> (b: bool)
        ensures
            b == is_pending()(r@),
        {
            r.status == scheduled || r.status == in_progress
        };
    let pending_maintenance = select(&chosen, waiting, Ghost(is_pending()));
    let maintenance_by_type = count_by(&chosen, MaintenanceKey::MaintenanceType);
    let equipment_history = group_by(&chosen, MaintenanceKey::EquipmentName);
    let n = equipment_history.len();
    let ghost rows = views(chosen@);
    let mut equipment_reliability: Vec<(String, u64)> = Vec::new();
    let mut j: usize = 0;
    while j < n
        invariant
            n == equipment_history.len(),
            j <= n,
            equipment_reliability.len() == j,
            is_grouping::<MaintenanceKey, MaintenanceRecord>(
                rows,
                MaintenanceKey::EquipmentName,
                equipment_history@,
            ),
            forall|k: int|
                0 <= k < j ==> (#[trigger] equipment_reliability[k]).0@ == equipment_history[k].0@,
            forall|k: int|
                0 <= k < j ==> (#[trigger] equipment_reliability[k]).1 == reliability_of(
                    keyed::<MaintenanceKey, MaintenanceRecord>(
                        rows,
                        MaintenanceKey::EquipmentName,
                        equipment_reliability[k].0@,
                    ),
                ),
        decreases n - j,
    {
        let history = &equipment_history[j].1;
        proof {
            let key = equipment_history[j as int].0@;
            let column = keys_of::<MaintenanceKey, MaintenanceRecord>(
                rows,
                MaintenanceKey::EquipmentName,
            );
            assert(column.contains(firsts(equipment_history@)[j as int]));
            let i = choose|i: int| 0 <= i < column.len() && column[i] == key;
            lemma_filter_members(
                rows,
                with_key::<MaintenanceKey, MaintenanceRecord>(MaintenanceKey::EquipmentName, key),
            );
            assert(views(history@).contains(rows[i]));
            assert(views(history@).len() == history.len());
        }
        let rate = reliability(history);
        equipment_reliability.push((equipment_history[j].0.clone(), rate));
        j += 1;
    }
    assert(firsts(equipment_reliability@) =~= firsts(equipment_history@));
    Some(
        MaintenanceAnalytics {
            total_maintenance_cost,
            maintenance_by_type,
            equipment_reliability,
            pending_maintenance,
            equipment_history,
        },
    )
}

// ---------------------------------------------------------------------------
// Inventory
// ---------------------------------------------------------------------------
/// The inventory report of a slaughterhouse.
#[derive(Debug, PartialEq, Eq)]
pub struct InventoryAnalytics {
    /// The number of products of each type.
    pub product_counts: Vec<(String, u64)>,
    /// In millionths of the currency unit.
    pub total_inventory_value: u64,
    /// The products in each status.
    pub products_by_status: Vec<(String, Vec<MeatProduct>)>,
    /// The products that weigh less than `LOW_STOCK_WEIGHT`.
    pub low_stock_items: Vec<MeatProduct>,
}

/// The condition of being low in stock.
pub open spec fn is_low_stock() -> spec_fn(MeatProductView) -> bool {
    |p: MeatProductView| p.weight < LOW_STOCK_WEIGHT
}

/// Whether `m` is the inventory report of slaughterhouse `sh`.
pub open spec fn is_inventory_report(
    m: InventoryAnalytics,
    products: Seq<MeatProductView>,
    sh: u64,
) -> bool {
    let own = of_house::<MeatProduct>(products, sh);
    &&& is_count_table::<ProductKey, MeatProduct>(own, ProductKey::ProductType, m.product_counts@)
    &&& m.total_inventory_value == total_of::<MeatProduct>(own)
    &&& is_grouping::<ProductKey, MeatProduct>(own, ProductKey::Status, m.products_by_status@)
    &&& views(m.low_stock_items@) == own.filter(is_low_stock())
}

/// The inventory report of slaughterhouse `sh`, unless the total value is
/// more than a `u64` holds.
pub fn inventory_analytics(products: &Vec<MeatProduct>, sh: u64) -> (r: Option<
    InventoryAnalytics,
>)
    ensures
        match r {
            Some(m) => is_inventory_report(m, views(products@), sh),
            None => revenue_of(views(products@), sh) > u64::MAX,
        },
{
    let own = select_house(products, sh);
    let total_inventory_value = total(&own)?;
    let light = |r: &MeatProduct| -> (b: bool)
        ensures
            b == is_low_stock()(r@),
        {
            r.weight < LOW_STOCK_WEIGHT
        };
    let low_stock_items = select(&own, light, Ghost(is_low_stock()));
    Some(
        InventoryAnalytics {
            product_counts: count_by(&own, ProductKey::ProductType),
            total_inventory_value,
            products_by_status: group_by(&own, ProductKey::Status),
            low_stock_items,
        },
    )
}

} // verus!
