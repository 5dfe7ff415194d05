use slaughterhouse::ledger::Ledger;
use slaughterhouse::message::Message;
use slaughterhouse::payloads::{
    CreateMeatProductPayload, CreateSlaughterhousePayload, EmployeePayload, MaintenancePayload,
    QualityInspectionPayload, RecordExpensePayload, RegisterAnimalPayload, ShipmentPayload,
    WasteDisposalPayload,
};
use slaughterhouse::records::animal::Animal;
use slaughterhouse::records::meat_product::MeatProduct;

fn house(name: &str, capacity: u64) -> CreateSlaughterhousePayload {
    CreateSlaughterhousePayload {
        name: name.to_string(),
        location: "North road 1".to_string(),
        contact: "555-0100".to_string(),
        email: "office@example.org".to_string(),
        capacity,
    }
}

fn animal(slaughterhouse_id: u64, tag: &str) -> RegisterAnimalPayload {
    RegisterAnimalPayload {
        slaughterhouse_id,
        tag_number: tag.to_string(),
        species: "cow".to_string(),
        weight: 450_000,
    }
}

fn product(animal_id: u64, slaughterhouse_id: u64, kind: &str, kg: u32, price: u32) -> CreateMeatProductPayload {
    CreateMeatProductPayload {
        animal_id,
        slaughterhouse_id,
        product_type: kind.to_string(),
        weight: kg * 1_000,
        price_per_kg: price * 1_000,
    }
}

#[test]
fn first_identifier_is_zero() {
    let mut ledger = Ledger::open().unwrap();
    assert_eq!(ledger.next_id(), 0);
    let s = ledger.create_slaughterhouse(house("Abattoir A", 100), 7).unwrap();
    assert_eq!(s.id, 0);
    assert_eq!(s.capacity, 100);
    assert_eq!(s.created_at, 7);
    assert_eq!(s.name, "Abattoir A");
    assert_eq!(ledger.next_id(), 1);
}

#[test]
fn identifiers_increase_across_kinds() {
    let mut ledger = Ledger::open().unwrap();
    let s = ledger.create_slaughterhouse(house("A", 1), 1).unwrap();
    let a = ledger.register_animal(animal(s.id, "T-1"), 2).unwrap();
    let p = ledger.create_meat_product(product(a.id, s.id, "steak", 20, 5), 3).unwrap();
    let e = ledger
        .record_expense(
            RecordExpensePayload {
                slaughterhouse_id: s.id,
                category: "feed".to_string(),
                amount: 10,
                description: "hay".to_string(),
            },
            4,
        )
        .unwrap();
    let q = ledger
        .perform_quality_inspection(
            QualityInspectionPayload {
                animal_id: a.id,
                inspector_name: "Kim".to_string(),
                temperature: 4_000,
                ph_level: 5_600,
                visual_inspection: "good".to_string(),
                passed: true,
                notes: "".to_string(),
            },
            5,
        )
        .unwrap();
    let m = ledger
        .register_employee(
            EmployeePayload {
                slaughterhouse_id: s.id,
                name: "Lee".to_string(),
                role: "butcher".to_string(),
                certification: "B".to_string(),
                contact: "555".to_string(),
            },
            6,
        )
        .unwrap();
    let r = ledger
        .schedule_maintenance(MaintenancePayload {
            slaughterhouse_id: s.id,
            equipment_name: "saw".to_string(),
            maintenance_type: "routine".to_string(),
            scheduled_date: 100,
            estimated_cost: 5,
            notes: "".to_string(),
        })
        .unwrap();
    let sh = ledger
        .create_shipment(
            ShipmentPayload {
                slaughterhouse_id: s.id,
                product_ids: vec![p.id],
                destination: "market".to_string(),
                expected_delivery: 99,
            },
            8,
        )
        .unwrap();
    let w = ledger
        .manage_waste_disposal(
            WasteDisposalPayload {
                slaughterhouse_id: s.id,
                waste_type: "bone".to_string(),
                quantity: 1_000,
                disposal_method: "render".to_string(),
                cost: 3,
                handled_by: "Lee".to_string(),
            },
            9,
        )
        .unwrap();
    let ids = vec![s.id, a.id, p.id, e.id, q.id, m.id, r.id, sh.id, w.id];
    assert_eq!(ids, vec![0, 1, 2, 3, 4, 5, 6, 7, 8]);
    assert_eq!(ledger.next_id(), 9);
}

#[test]
fn refused_creation_issues_no_identifier() {
    let mut ledger = Ledger::open().unwrap();
    let s = ledger.create_slaughterhouse(house("A", 1), 1).unwrap();
    let refused = ledger.register_animal(animal(77, "T-1"), 2);
    assert!(refused.is_err());
    assert_eq!(ledger.next_id(), 1);
    let a = ledger.register_animal(animal(s.id, "T-1"), 2).unwrap();
    assert_eq!(a.id, 1);
}

#[test]
fn animal_of_unknown_slaughterhouse_is_not_found() {
    let mut ledger = Ledger::open().unwrap();
    let before = ledger.animals().len();
    let r = ledger.register_animal(animal(3, "T-1"), 2);
    assert_eq!(r, Err(Message::NotFound("Slaughterhouse not found".to_string())));
    assert_eq!(ledger.animals().len(), before);
    assert_eq!(ledger.animals().len(), 0);
    assert!(ledger.animals().is_empty());
}

#[test]
fn product_scenario_revenue_and_inventory() {
    let mut ledger = Ledger::open().unwrap();
    let s = ledger.create_slaughterhouse(house("S", 100), 1).unwrap();
    let a = ledger.register_animal(animal(s.id, "A"), 2).unwrap();
    let p = ledger.create_meat_product(product(a.id, s.id, "steak", 20, 5), 3).unwrap();
    assert_eq!(p.total_price, 100_000_000);
    assert_eq!(p.total_price as f64 / 1e6, 100.0);
    assert_eq!(p.status, "in-stock");
    assert_eq!(ledger.calculate_total_revenue(s.id), Ok(100_000_000));
    let inventory = ledger.get_inventory_analytics(s.id).unwrap();
    assert_eq!(inventory.total_inventory_value, 100_000_000);
    assert!(inventory.low_stock_items.is_empty());
    assert_eq!(inventory.product_counts, vec![("steak".to_string(), 1)]);
    let light = ledger.create_meat_product(product(a.id, s.id, "steak", 5, 5), 4).unwrap();
    let inventory = ledger.get_inventory_analytics(s.id).unwrap();
    assert_eq!(inventory.low_stock_items, vec![light]);
    assert_eq!(inventory.total_inventory_value, 125_000_000);
    assert_eq!(inventory.product_counts, vec![("steak".to_string(), 2)]);
    assert_eq!(ledger.calculate_total_revenue(s.id), Ok(125_000_000));
}

#[test]
fn low_stock_threshold_is_ten_kilograms() {
    let mut ledger = Ledger::open().unwrap();
    let s = ledger.create_slaughterhouse(house("S", 100), 1).unwrap();
    let a = ledger.register_animal(animal(s.id, "A"), 2).unwrap();
    let at = CreateMeatProductPayload {
        animal_id: a.id,
        slaughterhouse_id: s.id,
        product_type: "ribs".to_string(),
        weight: 10_000,
        price_per_kg: 1,
    };
    let below = CreateMeatProductPayload {
        animal_id: a.id,
        slaughterhouse_id: s.id,
        product_type: "ribs".to_string(),
        weight: 9_999,
        price_per_kg: 1,
    };
    ledger.create_meat_product(at, 3).unwrap();
    let light = ledger.create_meat_product(below, 3).unwrap();
    let inventory = ledger.get_inventory_analytics(s.id).unwrap();
    assert_eq!(inventory.low_stock_items, vec![light]);
}

#[test]
fn revenue_of_slaughterhouse_without_products_is_zero() {
    let mut ledger = Ledger::open().unwrap();
    let s = ledger.create_slaughterhouse(house("S", 100), 1).unwrap();
    assert_eq!(ledger.calculate_total_revenue(s.id), Ok(0));
    assert_eq!(ledger.calculate_total_expenses(s.id), Ok(0));
}

#[test]
fn revenue_counts_only_the_slaughterhouse_asked_for() {
    let mut ledger = Ledger::open().unwrap();
    let s1 = ledger.create_slaughterhouse(house("S1", 100), 1).unwrap();
    let s2 = ledger.create_slaughterhouse(house("S2", 100), 1).unwrap();
    let a1 = ledger.register_animal(animal(s1.id, "A1"), 2).unwrap();
    let a2 = ledger.register_animal(animal(s2.id, "A2"), 2).unwrap();
    ledger.create_meat_product(product(a1.id, s1.id, "steak", 2, 3), 3).unwrap();
    ledger.create_meat_product(product(a2.id, s2.id, "steak", 7, 11), 3).unwrap();
    ledger.create_meat_product(product(a1.id, s1.id, "ribs", 5, 4), 3).unwrap();
    assert_eq!(ledger.calculate_total_revenue(s1.id), Ok(26_000_000));
    assert_eq!(ledger.calculate_total_revenue(s2.id), Ok(77_000_000));
}

#[test]
fn queries_on_unknown_slaughterhouse_are_not_found() {
    let ledger = Ledger::open().unwrap();
    let missing = Message::NotFound("Slaughterhouse not found".to_string());
    assert_eq!(ledger.calculate_total_revenue(5), Err(Message::NotFound("Slaughterhouse not found".to_string())));
    assert_eq!(ledger.calculate_total_expenses(5).unwrap_err(), missing);
    assert_eq!(ledger.generate_financial_analytics(5).unwrap_err(), missing);
    assert_eq!(ledger.get_quality_metrics(5, 0, 10).unwrap_err(), missing);
    assert_eq!(ledger.get_maintenance_analytics(5, 0, 10).unwrap_err(), missing);
    assert_eq!(ledger.get_inventory_analytics(5).unwrap_err(), missing);
}

#[test]
fn shipment_of_unknown_product_is_not_found() {
    let mut ledger = Ledger::open().unwrap();
    let s = ledger.create_slaughterhouse(house("S", 100), 1).unwrap();
    let a = ledger.register_animal(animal(s.id, "A"), 2).unwrap();
    let p = ledger.create_meat_product(product(a.id, s.id, "steak", 20, 5), 3).unwrap();
    let before = ledger.shipments().len();
    let next = ledger.next_id();
    let r = ledger.create_shipment(
        ShipmentPayload {
            slaughterhouse_id: s.id,
            product_ids: vec![p.id, 42, 43],
            destination: "market".to_string(),
            expected_delivery: 10,
        },
        4,
    );
    assert_eq!(r, Err(Message::NotFound("Product 42 not found".to_string())));
    assert_eq!(ledger.shipments().len(), before);
    assert_eq!(ledger.shipments().len(), 0);
    assert_eq!(ledger.next_id(), next);
}

#[test]
fn shipment_gets_tracking_number_and_status() {
    let mut ledger = Ledger::open().unwrap();
    let s = ledger.create_slaughterhouse(house("S", 100), 1).unwrap();
    let a = ledger.register_animal(animal(s.id, "A"), 2).unwrap();
    let p = ledger.create_meat_product(product(a.id, s.id, "steak", 20, 5), 3).unwrap();
    let shipment = ledger
        .create_shipment(
            ShipmentPayload {
                slaughterhouse_id: s.id,
                product_ids: vec![p.id],
                destination: "market".to_string(),
                expected_delivery: 10,
            },
            4,
        )
        .unwrap();
    assert_eq!(shipment.id, 3);
    assert_eq!(shipment.tracking_number, "SH000003");
    assert_eq!(shipment.status, "preparing");
    assert_eq!(shipment.shipping_date, 4);
    assert_eq!(shipment.product_ids, vec![p.id]);
    assert!(shipment.temperature_log.is_empty());
    assert_eq!(ledger.shipments().get(3), Some(shipment));
    assert_eq!(ledger.shipments().len(), 1);
}

#[test]
fn shipment_without_products_needs_only_the_slaughterhouse() {
    let mut ledger = Ledger::open().unwrap();
    let s = ledger.create_slaughterhouse(house("S", 100), 1).unwrap();
    let empty = ShipmentPayload {
        slaughterhouse_id: s.id,
        product_ids: vec![],
        destination: "market".to_string(),
        expected_delivery: 10,
    };
    assert!(ledger.create_shipment(empty, 4).is_ok());
    let nowhere = ShipmentPayload {
        slaughterhouse_id: 99,
        product_ids: vec![],
        destination: "market".to_string(),
        expected_delivery: 10,
    };
    assert_eq!(
        ledger.create_shipment(nowhere, 4),
        Err(Message::NotFound("Slaughterhouse not found".to_string()))
    );
}

#[test]
fn slaughterhouse_needs_name_contact_and_email() {
    let mut ledger = Ledger::open().unwrap();
    let mut p = house("", 1);
    let missing = Err(Message::InvalidPayload("Missing required fields".to_string()));
    assert_eq!(ledger.create_slaughterhouse(p, 1), missing);
    p = house("A", 1);
    p.contact = String::new();
    assert_eq!(ledger.create_slaughterhouse(p, 1), missing);
    p = house("A", 1);
    p.email = String::new();
    assert_eq!(ledger.create_slaughterhouse(p, 1), missing);
    p = house("A", 1);
    p.location = String::new();
    assert!(ledger.create_slaughterhouse(p, 1).is_ok());
    assert_eq!(ledger.slaughterhouses().len(), 1);
}

#[test]
fn animal_needs_tag_and_species_before_the_slaughterhouse_is_looked_up() {
    let mut ledger = Ledger::open().unwrap();
    let mut p = animal(9, "");
    let missing = Err(Message::InvalidPayload("Missing required fields".to_string()));
    assert_eq!(ledger.register_animal(p, 1), missing);
    p = animal(9, "T");
    p.species = String::new();
    assert_eq!(ledger.register_animal(p, 1), missing);
}

#[test]
fn registered_animal_is_received_and_kept() {
    let mut ledger = Ledger::open().unwrap();
    let s = ledger.create_slaughterhouse(house("S", 100), 1).unwrap();
    let a = ledger.register_animal(animal(s.id, "T-9"), 22).unwrap();
    assert_eq!(
        a,
        Animal {
            id: 1,
            slaughterhouse_id: 0,
            tag_number: "T-9".to_string(),
            species: "cow".to_string(),
            weight: 450_000,
            arrival_time: 22,
            status: "received".to_string(),
        }
    );
    assert!(ledger.animals().contains(1));
    assert!(!ledger.animals().contains(0));
    assert_eq!(ledger.animals().get(1), Some(a));
    assert_eq!(ledger.animals().get(0), None);
}

#[test]
fn product_needs_type_weight_and_price() {
    let mut ledger = Ledger::open().unwrap();
    let s = ledger.create_slaughterhouse(house("S", 100), 1).unwrap();
    let a = ledger.register_animal(animal(s.id, "A"), 2).unwrap();
    let invalid = Err(Message::InvalidPayload("Invalid product data".to_string()));
    assert_eq!(ledger.create_meat_product(product(a.id, s.id, "", 1, 1), 3), invalid);
    assert_eq!(ledger.create_meat_product(product(a.id, s.id, "steak", 0, 1), 3), invalid);
    assert_eq!(ledger.create_meat_product(product(a.id, s.id, "steak", 1, 0), 3), invalid);
    assert_eq!(ledger.create_meat_product(product(77, 78, "", 1, 1), 3), invalid);
    assert_eq!(ledger.meat_products().len(), 0);
}

#[test]
fn product_looks_up_the_animal_before_the_slaughterhouse() {
    let mut ledger = Ledger::open().unwrap();
    let s = ledger.create_slaughterhouse(house("S", 100), 1).unwrap();
    let a = ledger.register_animal(animal(s.id, "A"), 2).unwrap();
    assert_eq!(
        ledger.create_meat_product(product(50, 51, "steak", 1, 1), 3),
        Err(Message::NotFound("Animal not found".to_string()))
    );
    assert_eq!(
        ledger.create_meat_product(product(a.id, 51, "steak", 1, 1), 3),
        Err(Message::NotFound("Slaughterhouse not found".to_string()))
    );
    assert_eq!(ledger.meat_products().len(), 0);
}

#[test]
fn product_total_price_is_weight_times_price() {
    let mut ledger = Ledger::open().unwrap();
    let s = ledger.create_slaughterhouse(house("S", 100), 1).unwrap();
    let a = ledger.register_animal(animal(s.id, "A"), 2).unwrap();
    let p = ledger
        .create_meat_product(
            CreateMeatProductPayload {
                animal_id: a.id,
                slaughterhouse_id: s.id,
                product_type: "mince".to_string(),
                weight: 1_250,
                price_per_kg: 7_990,
            },
            3,
        )
        .unwrap();
    assert_eq!(
        p,
        MeatProduct {
            id: 2,
            animal_id: 1,
            slaughterhouse_id: 0,
            product_type: "mince".to_string(),
            weight: 1_250,
            price_per_kg: 7_990,
            total_price: 9_987_500,
            status: "in-stock".to_string(),
            created_at: 3,
        }
    );
    let largest = ledger
        .create_meat_product(
            CreateMeatProductPayload {
                animal_id: a.id,
                slaughterhouse_id: s.id,
                product_type: "mince".to_string(),
                weight: u32::MAX,
                price_per_kg: u32::MAX,
            },
            3,
        )
        .unwrap();
    assert_eq!(largest.total_price, 18_446_744_065_119_617_025);
}

#[test]
fn expense_needs_an_amount_and_a_slaughterhouse() {
    let mut ledger = Ledger::open().unwrap();
    let s = ledger.create_slaughterhouse(house("S", 100), 1).unwrap();
    let none = RecordExpensePayload {
        slaughterhouse_id: 5,
        category: "c".to_string(),
        amount: 0,
        description: "d".to_string(),
    };
    assert_eq!(
        ledger.record_expense(none, 1),
        Err(Message::InvalidPayload("Invalid expense amount".to_string()))
    );
    let nowhere = RecordExpensePayload {
        slaughterhouse_id: 5,
        category: "c".to_string(),
        amount: 1,
        description: "d".to_string(),
    };
    assert_eq!(
        ledger.record_expense(nowhere, 1),
        Err(Message::NotFound("Slaughterhouse not found".to_string()))
    );
    let fine = RecordExpensePayload {
        slaughterhouse_id: s.id,
        category: "c".to_string(),
        amount: 1,
        description: "d".to_string(),
    };
    let e = ledger.record_expense(fine, 17).unwrap();
    assert_eq!(e.date, 17);
    assert_eq!(e.amount, 1);
    assert_eq!(ledger.expenses().len(), 1);
    assert_eq!(ledger.calculate_total_expenses(s.id), Ok(1));
}

#[test]
fn inspection_needs_the_animal() {
    let mut ledger = Ledger::open().unwrap();
    let r = ledger.perform_quality_inspection(
        QualityInspectionPayload {
            animal_id: 4,
            inspector_name: "Kim".to_string(),
            temperature: -1_500,
            ph_level: 5_600,
            visual_inspection: "good".to_string(),
            passed: true,
            notes: "".to_string(),
        },
        5,
    );
    assert_eq!(r, Err(Message::NotFound("Animal not found".to_string())));
    assert_eq!(ledger.quality_inspections().len(), 0);
}

#[test]
fn employee_needs_name_role_and_slaughterhouse() {
    let mut ledger = Ledger::open().unwrap();
    let s = ledger.create_slaughterhouse(house("S", 100), 1).unwrap();
    let payload = |sh: u64, name: &str, role: &str| EmployeePayload {
        slaughterhouse_id: sh,
        name: name.to_string(),
        role: role.to_string(),
        certification: "".to_string(),
        contact: "".to_string(),
    };
    let missing = Err(Message::InvalidPayload("Missing required fields".to_string()));
    assert_eq!(ledger.register_employee(payload(9, "", "r"), 1), missing);
    assert_eq!(ledger.register_employee(payload(9, "n", ""), 1), missing);
    assert_eq!(
        ledger.register_employee(payload(9, "n", "r"), 1),
        Err(Message::NotFound("Slaughterhouse not found".to_string()))
    );
    let e = ledger.register_employee(payload(s.id, "n", "r"), 31).unwrap();
    assert_eq!(e.status, "active");
    assert_eq!(e.hire_date, 31);
    assert_eq!(ledger.employees().get(e.id), Some(e));
}

#[test]
fn maintenance_is_scheduled_with_the_next_one_three_months_later() {
    let mut ledger = Ledger::open().unwrap();
    let s = ledger.create_slaughterhouse(house("S", 100), 1).unwrap();
    let payload = |sh: u64, name: &str, kind: &str, date: u64| MaintenancePayload {
        slaughterhouse_id: sh,
        equipment_name: name.to_string(),
        maintenance_type: kind.to_string(),
        scheduled_date: date,
        estimated_cost: 12,
        notes: "n".to_string(),
    };
    let missing = Err(Message::InvalidPayload("Missing required fields".to_string()));
    assert_eq!(ledger.schedule_maintenance(payload(s.id, "", "routine", 1)), missing);
    assert_eq!(ledger.schedule_maintenance(payload(s.id, "saw", "", 1)), missing);
    assert_eq!(
        ledger.schedule_maintenance(payload(s.id, "saw", "routine", u64::MAX - 7_883_999)),
        Err(Message::InvalidPayload("Scheduled date out of range".to_string()))
    );
    assert_eq!(
        ledger.schedule_maintenance(payload(44, "saw", "routine", 1)),
        Err(Message::NotFound("Slaughterhouse not found".to_string()))
    );
    let last = ledger
        .schedule_maintenance(payload(s.id, "saw", "routine", u64::MAX - 7_884_000))
        .unwrap();
    assert_eq!(last.next_maintenance_date, u64::MAX);
    let r = ledger.schedule_maintenance(payload(s.id, "saw", "routine", 1_000)).unwrap();
    assert_eq!(r.date, 1_000);
    assert_eq!(r.next_maintenance_date, 7_885_000);
    assert_eq!(r.status, "scheduled");
    assert_eq!(r.performed_by, "");
    assert_eq!(r.cost, 12);
    assert_eq!(ledger.maintenance_records().len(), 2);
}

#[test]
fn waste_disposal_needs_the_slaughterhouse() {
    let mut ledger = Ledger::open().unwrap();
    let s = ledger.create_slaughterhouse(house("S", 100), 1).unwrap();
    let payload = |sh: u64| WasteDisposalPayload {
        slaughterhouse_id: sh,
        waste_type: "".to_string(),
        quantity: 0,
        disposal_method: "".to_string(),
        cost: 0,
        handled_by: "".to_string(),
    };
    assert_eq!(
        ledger.manage_waste_disposal(payload(8), 1),
        Err(Message::NotFound("Slaughterhouse not found".to_string()))
    );
    let w = ledger.manage_waste_disposal(payload(s.id), 41).unwrap();
    assert_eq!(w.disposal_date, 41);
    assert_eq!(ledger.waste_records().get(w.id), Some(w));
}

#[test]
fn record_over_the_size_bound_is_refused_and_nothing_changes() {
    let mut ledger = Ledger::open().unwrap();
    let mut p = house("S", 100);
    p.location = "x".repeat(600);
    let r = ledger.create_slaughterhouse(p, 1);
    assert_eq!(r, Err(Message::Error("Record exceeds the size bound".to_string())));
    assert_eq!(ledger.next_id(), 0);
    assert_eq!(ledger.slaughterhouses().len(), 0);
}

#[test]
fn record_at_the_size_bound_is_kept() {
    let mut ledger = Ledger::open().unwrap();
    // 3 integers of 8 bytes, 4 texts with 4 bytes of length each: 40 bytes
    // around the characters.
    let mut p = house("S", 100);
    p.contact = "c".to_string();
    p.email = "e".to_string();
    p.location = "x".repeat(512 - 40 - 3);
    let kept = ledger.create_slaughterhouse(p, 1).unwrap();
    assert_eq!(ledger.slaughterhouses().get(kept.id), Some(kept));
    let mut q = house("S", 100);
    q.contact = "c".to_string();
    q.email = "e".to_string();
    q.location = "x".repeat(512 - 40 - 2);
    assert_eq!(
        ledger.create_slaughterhouse(q, 1),
        Err(Message::Error("Record exceeds the size bound".to_string()))
    );
}

#[test]
fn scan_returns_rows_by_ascending_identifier() {
    let mut ledger = Ledger::open().unwrap();
    let s = ledger.create_slaughterhouse(house("S", 100), 1).unwrap();
    let a1 = ledger.register_animal(animal(s.id, "A1"), 2).unwrap();
    ledger.create_slaughterhouse(house("S2", 100), 1).unwrap();
    let a2 = ledger.register_animal(animal(s.id, "A2"), 2).unwrap();
    let a3 = ledger.register_animal(animal(s.id, "A3"), 2).unwrap();
    let rows = ledger.animals().scan();
    assert_eq!(rows, vec![(1, a1), (3, a2), (4, a3)]);
    let again = ledger.animals().scan();
    assert_eq!(rows, again);
    let records = ledger.animals().records();
    assert_eq!(records.len(), 3);
    assert_eq!(records[1].tag_number, "A2");
}

#[test]
fn total_that_does_not_fit_is_an_error() {
    let mut ledger = Ledger::open().unwrap();
    let s = ledger.create_slaughterhouse(house("S", 100), 1).unwrap();
    let a = ledger.register_animal(animal(s.id, "A"), 2).unwrap();
    let largest = |kind: &str| CreateMeatProductPayload {
        animal_id: a.id,
        slaughterhouse_id: s.id,
        product_type: kind.to_string(),
        weight: u32::MAX,
        price_per_kg: u32::MAX,
    };
    ledger.create_meat_product(largest("steak"), 3).unwrap();
    assert_eq!(ledger.calculate_total_revenue(s.id), Ok(18_446_744_065_119_617_025));
    ledger.create_meat_product(largest("ribs"), 3).unwrap();
    let out_of_range = Message::Error("Total out of range".to_string());
    assert_eq!(ledger.calculate_total_revenue(s.id), Err(Message::Error("Total out of range".to_string())));
    assert_eq!(ledger.generate_financial_analytics(s.id).unwrap_err(), out_of_range);
    assert_eq!(ledger.get_inventory_analytics(s.id).unwrap_err(), out_of_range);
    assert_eq!(ledger.calculate_total_expenses(s.id), Ok(0));
    let spend = |amount: u64| RecordExpensePayload {
        slaughterhouse_id: s.id,
        category: "c".to_string(),
        amount,
        description: "d".to_string(),
    };
    ledger.record_expense(spend(u64::MAX), 4).unwrap();
    assert_eq!(ledger.calculate_total_expenses(s.id), Ok(u64::MAX));
    ledger.record_expense(spend(1), 4).unwrap();
    assert_eq!(ledger.calculate_total_expenses(s.id).unwrap_err(), out_of_range);
    let plan = |cost: u64| MaintenancePayload {
        slaughterhouse_id: s.id,
        equipment_name: "saw".to_string(),
        maintenance_type: "routine".to_string(),
        scheduled_date: 10,
        estimated_cost: cost,
        notes: "".to_string(),
    };
    ledger.schedule_maintenance(plan(u64::MAX)).unwrap();
    ledger.schedule_maintenance(plan(u64::MAX)).unwrap();
    assert_eq!(ledger.get_maintenance_analytics(s.id, 0, 20).unwrap_err(), out_of_range);
    assert!(ledger.get_maintenance_analytics(s.id, 11, 20).is_ok());
}

#[test]
fn two_ledgers_do_not_share_their_rows() {
    let mut one = Ledger::open().unwrap();
    let two = Ledger::open().unwrap();
    one.create_slaughterhouse(house("S", 100), 1).unwrap();
    assert_eq!(one.slaughterhouses().len(), 1);
    assert_eq!(two.slaughterhouses().len(), 0);
    assert_eq!(two.next_id(), 0);
    assert_eq!(one.suppliers().len(), 0);
}
