use slaughterhouse::analytics::{
    failure_rate, financial_metrics, inventory_analytics, maintenance_analytics, profit_margin,
    reliability, LOW_STOCK_WEIGHT, MARGIN_SCALE,
};
use slaughterhouse::charges::{select_house, total};
use slaughterhouse::grouping::{
    count_by, distinct_keys, group_by, position, select_by_key, total_by, MaintenanceKey,
    ProductKey,
};
use slaughterhouse::ledger::Ledger;
use slaughterhouse::payloads::{
    CreateMeatProductPayload, CreateSlaughterhousePayload, MaintenancePayload,
    QualityInspectionPayload, RecordExpensePayload, RegisterAnimalPayload, WasteDisposalPayload,
};
use slaughterhouse::records::expense::Expense;
use slaughterhouse::records::maintenance_record::MaintenanceRecord;
use slaughterhouse::records::meat_product::MeatProduct;
use slaughterhouse::records::waste_record::WasteRecord;
use slaughterhouse::tally::{rounded_ratio, rounded_signed_ratio};

fn product(id: u64, sh: u64, kind: &str, status: &str, weight: u32, total_price: u64) -> MeatProduct {
    MeatProduct {
        id,
        animal_id: 0,
        slaughterhouse_id: sh,
        product_type: kind.to_string(),
        weight,
        price_per_kg: 1,
        total_price,
        status: status.to_string(),
        created_at: 0,
    }
}

fn expense(id: u64, sh: u64, amount: u64) -> Expense {
    Expense {
        id,
        slaughterhouse_id: sh,
        date: 0,
        category: "c".to_string(),
        amount,
        description: "d".to_string(),
    }
}

fn upkeep(id: u64, sh: u64, equipment: &str, kind: &str, status: &str, cost: u64, date: u64) -> MaintenanceRecord {
    MaintenanceRecord {
        id,
        slaughterhouse_id: sh,
        equipment_name: equipment.to_string(),
        maintenance_type: kind.to_string(),
        cost,
        date,
        next_maintenance_date: date + 7_884_000,
        performed_by: "".to_string(),
        status: status.to_string(),
        notes: "".to_string(),
    }
}

fn waste(id: u64, sh: u64, cost: u64) -> WasteRecord {
    WasteRecord {
        id,
        slaughterhouse_id: sh,
        waste_type: "w".to_string(),
        quantity: 1,
        disposal_method: "m".to_string(),
        disposal_date: 0,
        handled_by: "h".to_string(),
        cost,
    }
}

fn sorted<T: Ord>(mut v: Vec<T>) -> Vec<T> {
    v.sort();
    v
}

#[test]
fn rounded_ratio_rounds_to_nearest_and_ties_away_from_zero() {
    assert_eq!(rounded_ratio(0, 3), 0);
    assert_eq!(rounded_ratio(1, 3), 0);
    assert_eq!(rounded_ratio(2, 3), 1);
    assert_eq!(rounded_ratio(1, 2), 1);
    assert_eq!(rounded_ratio(3, 2), 2);
    assert_eq!(rounded_ratio(5, 2), 3);
    assert_eq!(rounded_ratio(7, 1), 7);
    assert_eq!(rounded_ratio(100, 8), 13);
    assert_eq!(rounded_signed_ratio(-1, 2), -1);
    assert_eq!(rounded_signed_ratio(-3, 2), -2);
    assert_eq!(rounded_signed_ratio(-1, 3), 0);
    assert_eq!(rounded_signed_ratio(-2, 3), -1);
    assert_eq!(rounded_signed_ratio(5, 2), 3);
    assert_eq!(rounded_signed_ratio(0, 9), 0);
    for n in [-7i128, -5, -2, 0, 1, 4, 9] {
        for d in [1i128, 2, 3, 4, 10] {
            let expected = (n as f64 / d as f64).round() as i128;
            assert_eq!(rounded_signed_ratio(n, d), expected);
        }
    }
}

#[test]
fn profit_margin_is_clamped_at_zero() {
    assert_eq!(profit_margin(100, 150), Some(0));
    assert_eq!(profit_margin(100, 100), Some(0));
    assert_eq!(profit_margin(1, u64::MAX), Some(0));
}

#[test]
fn profit_margin_is_undefined_without_revenue() {
    assert_eq!(profit_margin(0, 0), None);
    assert_eq!(profit_margin(0, 10), None);
}

#[test]
fn profit_margin_is_in_thousandths_of_a_percent() {
    assert_eq!(MARGIN_SCALE, 100_000);
    assert_eq!(profit_margin(200, 150), Some(25_000));
    assert_eq!(profit_margin(100, 0), Some(100_000));
    assert_eq!(profit_margin(3, 2), Some(33_333));
    assert_eq!(profit_margin(3, 1), Some(66_667));
    assert_eq!(profit_margin(u64::MAX, 0), Some(100_000));
    assert_eq!(profit_margin(u64::MAX, u64::MAX - 1), Some(0));
    let exact = (200.0f64 - 150.0) / 200.0 * 100.0;
    assert_eq!(profit_margin(200, 150).unwrap() as f64 / 1_000.0, exact);
}

#[test]
fn failure_rate_without_inspections_is_zero() {
    assert_eq!(failure_rate(0, 0), 0);
}

#[test]
fn failure_rate_is_a_rounded_percentage() {
    assert_eq!(failure_rate(3, 3), 0);
    assert_eq!(failure_rate(3, 2), 33);
    assert_eq!(failure_rate(3, 1), 67);
    assert_eq!(failure_rate(3, 0), 100);
    assert_eq!(failure_rate(8, 7), 13);
    assert_eq!(failure_rate(200, 199), 1);
    assert_eq!(failure_rate(201, 200), 0);
    assert_eq!(failure_rate(u64::MAX, 0), 100);
    assert_eq!(failure_rate(u64::MAX, u64::MAX), 0);
}

#[test]
fn total_is_the_sum_or_nothing_when_it_does_not_fit() {
    let none: Vec<Expense> = vec![];
    assert_eq!(total(&none), Some(0));
    assert_eq!(total(&vec![expense(0, 1, 5), expense(1, 1, 7)]), Some(12));
    assert_eq!(total(&vec![expense(0, 1, u64::MAX)]), Some(u64::MAX));
    assert_eq!(total(&vec![expense(0, 1, u64::MAX), expense(1, 1, 1)]), None);
    assert_eq!(total(&vec![expense(0, 1, u64::MAX), expense(1, 1, u64::MAX)]), None);
}

#[test]
fn select_house_keeps_order_and_only_the_house() {
    let rows = vec![expense(0, 1, 5), expense(1, 2, 6), expense(2, 1, 7), expense(3, 3, 8)];
    assert_eq!(select_house(&rows, 1), vec![expense(0, 1, 5), expense(2, 1, 7)]);
    assert_eq!(select_house(&rows, 3), vec![expense(3, 3, 8)]);
    assert!(select_house(&rows, 4).is_empty());
}

#[test]
fn grouping_by_a_text_field() {
    let rows = vec![
        product(0, 1, "steak", "in-stock", 1, 10),
        product(1, 1, "ribs", "sold", 1, 20),
        product(2, 1, "steak", "sold", 1, 30),
        product(3, 1, "mince", "in-stock", 1, 40),
        product(4, 1, "steak", "in-stock", 1, 50),
    ];
    assert_eq!(
        sorted(distinct_keys(&rows, ProductKey::ProductType)),
        vec!["mince".to_string(), "ribs".to_string(), "steak".to_string()]
    );
    assert_eq!(
        sorted(distinct_keys(&rows, ProductKey::Status)),
        vec!["in-stock".to_string(), "sold".to_string()]
    );
    let steaks = select_by_key(&rows, ProductKey::ProductType, &"steak".to_string());
    assert_eq!(steaks.iter().map(|p| p.id).collect::<Vec<u64>>(), vec![0, 2, 4]);
    assert!(select_by_key(&rows, ProductKey::ProductType, &"sold".to_string()).is_empty());
    assert_eq!(
        sorted(count_by(&rows, ProductKey::ProductType)),
        vec![("mince".to_string(), 1), ("ribs".to_string(), 1), ("steak".to_string(), 3)]
    );
    assert_eq!(
        sorted(count_by(&rows, ProductKey::Status)),
        vec![("in-stock".to_string(), 3), ("sold".to_string(), 2)]
    );
    assert_eq!(
        total_by(&rows, ProductKey::ProductType).map(sorted),
        Some(vec![("mince".to_string(), 40), ("ribs".to_string(), 20), ("steak".to_string(), 90)])
    );
    let groups = group_by(&rows, ProductKey::Status);
    assert_eq!(groups.len(), 2);
    for (status, members) in &groups {
        let ids: Vec<u64> = members.iter().map(|p| p.id).collect();
        if status == "sold" {
            assert_eq!(ids, vec![1, 2]);
        } else {
            assert_eq!(status, "in-stock");
            assert_eq!(ids, vec![0, 3, 4]);
        }
    }
    let none: Vec<MeatProduct> = vec![];
    assert!(group_by(&none, ProductKey::Status).is_empty());
    assert!(count_by(&none, ProductKey::Status).is_empty());
}

#[test]
fn maintenance_is_grouped_by_type_or_by_equipment() {
    let rows = vec![
        upkeep(0, 1, "saw", "routine", "completed", 1, 1),
        upkeep(1, 1, "hoist", "routine", "completed", 1, 1),
        upkeep(2, 1, "saw", "emergency", "completed", 1, 1),
    ];
    assert_eq!(
        sorted(count_by(&rows, MaintenanceKey::MaintenanceType)),
        vec![("emergency".to_string(), 1), ("routine".to_string(), 2)]
    );
    assert_eq!(
        sorted(count_by(&rows, MaintenanceKey::EquipmentName)),
        vec![("hoist".to_string(), 1), ("saw".to_string(), 2)]
    );
    assert_eq!(
        sorted(distinct_keys(&rows, MaintenanceKey::EquipmentName)),
        vec!["hoist".to_string(), "saw".to_string()]
    );
}

#[test]
fn position_finds_the_key() {
    let keys = vec!["a".to_string(), "b".to_string(), "a".to_string()];
    assert_eq!(position(&keys, &"a".to_string()), Some(0));
    assert_eq!(position(&keys, &"b".to_string()), Some(1));
    assert_eq!(position(&keys, &"c".to_string()), None);
}

#[test]
fn total_by_gives_nothing_when_a_group_does_not_fit() {
    let rows = vec![
        product(0, 1, "steak", "s", 1, u64::MAX),
        product(1, 1, "ribs", "s", 1, 20),
        product(2, 1, "steak", "s", 1, 1),
    ];
    assert_eq!(total_by(&rows, ProductKey::ProductType), None);
    assert!(total_by(&rows[..2].iter().map(|p| product(p.id, 1, &p.product_type, "s", 1, p.total_price)).collect(), ProductKey::ProductType).is_some());
}

#[test]
fn financial_report_formulas() {
    let products = vec![
        product(0, 1, "steak", "in-stock", 1, 700),
        product(1, 2, "steak", "in-stock", 1, 9_999),
        product(2, 1, "ribs", "in-stock", 1, 300),
        product(3, 1, "steak", "sold", 1, 1_000),
    ];
    let expenses = vec![expense(4, 1, 900), expense(5, 2, 77), expense(6, 1, 600)];
    let maintenance = vec![
        upkeep(7, 1, "saw", "routine", "scheduled", 250, 5),
        upkeep(8, 2, "saw", "routine", "scheduled", 11, 5),
    ];
    let wastes = vec![waste(9, 1, 50), waste(10, 1, 25), waste(11, 3, 1)];
    let m = financial_metrics(&products, &expenses, &maintenance, &wastes, 1).unwrap();
    assert_eq!(m.total_revenue, 2_000);
    assert_eq!(m.total_expenses, 1_500);
    assert_eq!(m.maintenance_costs, 250);
    assert_eq!(m.waste_management_costs, 75);
    assert_eq!(m.operating_costs, 1_500 - 250 - 75);
    assert_eq!(m.profit_margin, Some(25_000));
    assert_eq!(m.labor_costs, 0);
    assert_eq!(
        sorted(m.revenue_by_product),
        vec![("ribs".to_string(), 300), ("steak".to_string(), 1_700)]
    );
    assert!(m.expenses_by_category.is_empty());
}

#[test]
fn financial_report_with_loss_and_costs_above_expenses() {
    let products = vec![product(0, 1, "steak", "in-stock", 1, 100)];
    let expenses = vec![expense(1, 1, 150)];
    let maintenance = vec![upkeep(2, 1, "saw", "routine", "scheduled", 400, 5)];
    let wastes = vec![waste(3, 1, 50)];
    let m = financial_metrics(&products, &expenses, &maintenance, &wastes, 1).unwrap();
    assert_eq!(m.profit_margin, Some(0));
    assert_eq!(m.operating_costs, -300);
}

#[test]
fn financial_report_without_revenue_has_no_margin() {
    let m = financial_metrics(&vec![], &vec![expense(1, 1, 150)], &vec![], &vec![], 1).unwrap();
    assert_eq!(m.total_revenue, 0);
    assert_eq!(m.profit_margin, None);
    assert_eq!(m.operating_costs, 150);
    assert!(m.revenue_by_product.is_empty());
}

#[test]
fn financial_report_gives_nothing_when_a_total_does_not_fit() {
    let products = vec![product(0, 1, "a", "s", 1, u64::MAX), product(1, 1, "b", "s", 1, 1)];
    assert_eq!(financial_metrics(&products, &vec![], &vec![], &vec![], 1), None);
    let m = financial_metrics(&products, &vec![], &vec![], &vec![], 2).unwrap();
    assert_eq!(m.total_revenue, 0);
    let expenses = vec![expense(0, 1, u64::MAX), expense(1, 1, 1)];
    assert_eq!(financial_metrics(&vec![], &expenses, &vec![], &vec![], 1), None);
    let wastes = vec![waste(0, 1, u64::MAX), waste(1, 1, u64::MAX)];
    assert_eq!(financial_metrics(&vec![], &vec![], &vec![], &wastes, 1), None);
    let all = financial_metrics(
        &vec![product(0, 1, "a", "s", 1, u64::MAX)],
        &vec![],
        &vec![upkeep(1, 1, "saw", "routine", "scheduled", u64::MAX, 0)],
        &vec![waste(2, 1, u64::MAX)],
        1,
    )
    .unwrap();
    assert_eq!(all.operating_costs, -2 * (u64::MAX as i128));
    assert_eq!(all.profit_margin, Some(100_000));
}

#[test]
fn maintenance_report_formulas() {
    let records = vec![
        upkeep(0, 1, "saw", "routine", "completed", 100, 10),
        upkeep(1, 1, "saw", "emergency", "scheduled", 300, 20),
        upkeep(2, 1, "hoist", "routine", "in-progress", 50, 20),
        upkeep(3, 2, "saw", "emergency", "scheduled", 999, 15),
        upkeep(4, 1, "saw", "inspection", "cancelled", 25, 30),
        upkeep(5, 1, "saw", "routine", "scheduled", 7, 31),
        upkeep(6, 1, "saw", "routine", "scheduled", 7, 9),
    ];
    let m = maintenance_analytics(&records, 1, 10, 30).unwrap();
    assert_eq!(m.total_maintenance_cost, 475);
    assert_eq!(
        sorted(m.maintenance_by_type),
        vec![
            ("emergency".to_string(), 1),
            ("inspection".to_string(), 1),
            ("routine".to_string(), 2)
        ]
    );
    assert_eq!(
        m.pending_maintenance.iter().map(|r| r.id).collect::<Vec<u64>>(),
        vec![1, 2]
    );
    assert_eq!(m.equipment_history.len(), 2);
    for (equipment, history) in &m.equipment_history {
        let ids: Vec<u64> = history.iter().map(|r| r.id).collect();
        if equipment == "saw" {
            assert_eq!(ids, vec![0, 1, 4]);
        } else {
            assert_eq!(equipment, "hoist");
            assert_eq!(ids, vec![2]);
        }
    }
    assert_eq!(
        sorted(m.equipment_reliability),
        vec![("hoist".to_string(), 100), ("saw".to_string(), 67)]
    );
}

#[test]
fn maintenance_report_of_nothing_is_empty() {
    let m = maintenance_analytics(&vec![], 1, 0, u64::MAX).unwrap();
    assert_eq!(m.total_maintenance_cost, 0);
    assert!(m.maintenance_by_type.is_empty());
    assert!(m.equipment_reliability.is_empty());
    assert!(m.pending_maintenance.is_empty());
    assert!(m.equipment_history.is_empty());
    let over = vec![
        upkeep(0, 1, "saw", "routine", "completed", u64::MAX, 10),
        upkeep(1, 1, "saw", "routine", "completed", 1, 10),
    ];
    assert_eq!(maintenance_analytics(&over, 1, 0, 20), None);
    assert!(maintenance_analytics(&over, 1, 11, 20).is_some());
}

#[test]
fn reliability_is_the_rounded_share_of_repairs_that_were_no_emergency() {
    let history = |kinds: &[&str]| -> Vec<MaintenanceRecord> {
        kinds.iter().map(|k| upkeep(0, 1, "saw", k, "completed", 1, 1)).collect()
    };
    assert_eq!(reliability(&history(&["routine"])), 100);
    assert_eq!(reliability(&history(&["emergency"])), 0);
    assert_eq!(reliability(&history(&["emergency", "routine"])), 50);
    assert_eq!(reliability(&history(&["emergency", "routine", "routine"])), 67);
    assert_eq!(reliability(&history(&["emergency", "emergency", "routine"])), 33);
    assert_eq!(reliability(&history(&["Emergency", "emergency ", "x"])), 100);
}

#[test]
fn inventory_report_formulas() {
    assert_eq!(LOW_STOCK_WEIGHT, 10_000);
    let products = vec![
        product(0, 1, "steak", "in-stock", 20_000, 700),
        product(1, 2, "steak", "in-stock", 1, 9_999),
        product(2, 1, "ribs", "sold", 9_999, 300),
        product(3, 1, "steak", "sold", 10_000, 1_000),
        product(4, 1, "mince", "in-stock", 0, 5),
    ];
    let m = inventory_analytics(&products, 1).unwrap();
    assert_eq!(m.total_inventory_value, 2_005);
    assert_eq!(
        sorted(m.product_counts),
        vec![("mince".to_string(), 1), ("ribs".to_string(), 1), ("steak".to_string(), 2)]
    );
    assert_eq!(m.low_stock_items.iter().map(|p| p.id).collect::<Vec<u64>>(), vec![2, 4]);
    assert_eq!(m.products_by_status.len(), 2);
    for (status, members) in &m.products_by_status {
        let ids: Vec<u64> = members.iter().map(|p| p.id).collect();
        if status == "sold" {
            assert_eq!(ids, vec![2, 3]);
        } else {
            assert_eq!(status, "in-stock");
            assert_eq!(ids, vec![0, 4]);
        }
    }
    let over = vec![product(0, 1, "a", "s", 1, u64::MAX), product(1, 1, "a", "s", 1, 1)];
    assert_eq!(inventory_analytics(&over, 1), None);
}

fn ledger_with_inspections() -> (Ledger, u64, u64) {
    let mut ledger = Ledger::open().unwrap();
    let house = |name: &str| CreateSlaughterhousePayload {
        name: name.to_string(),
        location: "l".to_string(),
        contact: "c".to_string(),
        email: "e".to_string(),
        capacity: 1,
    };
    let s1 = ledger.create_slaughterhouse(house("one"), 0).unwrap().id;
    let s2 = ledger.create_slaughterhouse(house("two"), 0).unwrap().id;
    let animal = |sh: u64| RegisterAnimalPayload {
        slaughterhouse_id: sh,
        tag_number: "t".to_string(),
        species: "s".to_string(),
        weight: 1,
    };
    let a1 = ledger.register_animal(animal(s1), 0).unwrap().id;
    let a2 = ledger.register_animal(animal(s2), 0).unwrap().id;
    let inspection = |animal_id: u64, temperature: i32, ph_level: u32, passed: bool| {
        QualityInspectionPayload {
            animal_id,
            inspector_name: "Kim".to_string(),
            temperature,
            ph_level,
            visual_inspection: "v".to_string(),
            passed,
            notes: "".to_string(),
        }
    };
    // ids 4.., dates 100, 200, 300, 400
    ledger.perform_quality_inspection(inspection(a1, 4_000, 5_600, true), 100).unwrap();
    ledger.perform_quality_inspection(inspection(a1, 5_000, 5_700, false), 200).unwrap();
    ledger.perform_quality_inspection(inspection(a2, 50_000, 9_000, false), 200).unwrap();
    ledger.perform_quality_inspection(inspection(a1, 7_500, 6_200, true), 300).unwrap();
    ledger.perform_quality_inspection(inspection(a1, -30_000, 1_000, false), 400).unwrap();
    (ledger, s1, s2)
}

#[test]
fn quality_report_joins_through_the_animal_and_includes_both_ends() {
    let (ledger, s1, s2) = ledger_with_inspections();
    let m = ledger.get_quality_metrics(s1, 100, 300).unwrap();
    assert_eq!(m.total_inspections, 3);
    assert_eq!(m.passed_inspections, 2);
    assert_eq!(m.failure_rate, 33);
    // (4.0 + 5.0 + 7.5) / 3 = 5.5, which rounds to 6
    assert_eq!(m.average_temperature, 6);
    assert_eq!(m.average_temperature as f64, ((4.0f64 + 5.0 + 7.5) / 3.0).round());
    // (5.6 + 5.7 + 6.2) / 3 = 5.83..
    assert_eq!(m.average_ph_level, 6);
    assert_eq!(m.inspections.iter().map(|i| i.id).collect::<Vec<u64>>(), vec![4, 5, 7]);
    let other = ledger.get_quality_metrics(s2, 0, u64::MAX).unwrap();
    assert_eq!(other.total_inspections, 1);
    assert_eq!(other.passed_inspections, 0);
    assert_eq!(other.failure_rate, 100);
    assert_eq!(other.average_temperature, 50);
    assert_eq!(other.average_ph_level, 9);
}

#[test]
fn quality_report_rounds_negative_means_away_from_zero() {
    let (ledger, s1, _) = ledger_with_inspections();
    let m = ledger.get_quality_metrics(s1, 400, 400).unwrap();
    assert_eq!(m.total_inspections, 1);
    assert_eq!(m.average_temperature, -30);
    assert_eq!(m.average_ph_level, 1);
    let m = ledger.get_quality_metrics(s1, 300, 400).unwrap();
    // (7.5 - 30.0) / 2 = -11.25
    assert_eq!(m.average_temperature, -11);
    // (6.2 + 1.0) / 2 = 3.6
    assert_eq!(m.average_ph_level, 4);
    assert_eq!(m.failure_rate, 50);
    let m = ledger.get_quality_metrics(s1, 200, 400).unwrap();
    // (5.0 + 7.5 - 30.0) / 3 = -5.83..
    assert_eq!(m.average_temperature, -6);
}

#[test]
fn quality_report_without_inspections_is_all_zero() {
    let (ledger, s1, _) = ledger_with_inspections();
    for (start, end) in [(0u64, 99u64), (401, u64::MAX), (300, 200)] {
        let m = ledger.get_quality_metrics(s1, start, end).unwrap();
        assert_eq!(m.total_inspections, 0);
        assert_eq!(m.passed_inspections, 0);
        assert_eq!(m.failure_rate, 0);
        assert_eq!(m.average_temperature, 0);
        assert_eq!(m.average_ph_level, 0);
        assert!(m.inspections.is_empty());
    }
}

#[test]
fn ledger_reports_follow_the_rows_created() {
    let (mut ledger, s1, s2) = ledger_with_inspections();
    let product = |sh: u64, kind: &str, weight: u32, price: u32| CreateMeatProductPayload {
        animal_id: 2,
        slaughterhouse_id: sh,
        product_type: kind.to_string(),
        weight,
        price_per_kg: price,
    };
    ledger.create_meat_product(product(s1, "steak", 2_000, 10_000), 1).unwrap();
    ledger.create_meat_product(product(s1, "ribs", 1_000, 5_000), 1).unwrap();
    ledger.create_meat_product(product(s2, "ribs", 1_000, 5_000), 1).unwrap();
    let spend = |sh: u64, amount: u64| RecordExpensePayload {
        slaughterhouse_id: sh,
        category: "c".to_string(),
        amount,
        description: "d".to_string(),
    };
    ledger.record_expense(spend(s1, 10_000_000), 1).unwrap();
    ledger.record_expense(spend(s2, 1), 1).unwrap();
    let plan = |sh: u64, equipment: &str, kind: &str, date: u64, cost: u64| MaintenancePayload {
        slaughterhouse_id: sh,
        equipment_name: equipment.to_string(),
        maintenance_type: kind.to_string(),
        scheduled_date: date,
        estimated_cost: cost,
        notes: "".to_string(),
    };
    ledger.schedule_maintenance(plan(s1, "saw", "emergency", 50, 2_000_000)).unwrap();
    ledger.schedule_maintenance(plan(s1, "saw", "routine", 60, 1_000_000)).unwrap();
    ledger.schedule_maintenance(plan(s2, "saw", "routine", 60, 9)).unwrap();
    ledger
        .manage_waste_disposal(
            WasteDisposalPayload {
                slaughterhouse_id: s1,
                waste_type: "w".to_string(),
                quantity: 5,
                disposal_method: "m".to_string(),
                cost: 500_000,
                handled_by: "h".to_string(),
            },
            1,
        )
        .unwrap();
    let f = ledger.generate_financial_analytics(s1).unwrap();
    assert_eq!(f.total_revenue, 25_000_000);
    assert_eq!(f.total_expenses, 10_000_000);
    assert_eq!(f.maintenance_costs, 3_000_000);
    assert_eq!(f.waste_management_costs, 500_000);
    assert_eq!(f.operating_costs, 6_500_000);
    assert_eq!(f.profit_margin, Some(60_000));
    assert_eq!(
        sorted(f.revenue_by_product),
        vec![("ribs".to_string(), 5_000_000), ("steak".to_string(), 20_000_000)]
    );
    let m = ledger.get_maintenance_analytics(s1, 0, 100).unwrap();
    assert_eq!(m.total_maintenance_cost, 3_000_000);
    assert_eq!(m.pending_maintenance.len(), 2);
    assert_eq!(m.equipment_reliability, vec![("saw".to_string(), 50)]);
    assert_eq!(m.maintenance_by_type.len(), 2);
    let m = ledger.get_maintenance_analytics(s1, 55, 100).unwrap();
    assert_eq!(m.total_maintenance_cost, 1_000_000);
    assert_eq!(m.equipment_reliability, vec![("saw".to_string(), 100)]);
    let i = ledger.get_inventory_analytics(s2).unwrap();
    assert_eq!(i.total_inventory_value, 5_000_000);
    assert_eq!(i.low_stock_items.len(), 1);
}
